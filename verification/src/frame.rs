//! Frames: a length field, then a payload of exactly that length.

use crate::error::{ErrorKind, MessagingError, MessagingErrorView};
use crate::prefix::{
    decode_prefix, encode_prefix, lemma_prefix_canonical, lemma_prefix_round_trip, prefix_bytes,
    prefix_value, Endianness,
};
use vstd::prelude::*;
use vstd::slice::slice_subrange;

verus! {

/// Whether a payload is short enough for the length field to declare it.
pub open spec fn fits(payload: Seq<u8>) -> bool {
    payload.len() <= u32::MAX
}

/// The frame that carries `payload`: its length, then the payload itself, with
/// nothing between them and nothing after.
pub open spec fn frame_of(order: Endianness, payload: Seq<u8>) -> Seq<u8>
    recommends
        fits(payload),
{
    prefix_bytes(order, payload.len() as int) + payload
}

/// Whether `input` opens with a whole frame: a length field, and as many
/// bytes after it as the field declares.
pub open spec fn starts_with_frame(order: Endianness, input: Seq<u8>) -> bool {
    input.len() >= 4 && 4 + prefix_value(order, input) <= input.len()
}

/// The payload of the frame that `input` opens with.
pub open spec fn first_payload(order: Endianness, input: Seq<u8>) -> Seq<u8>
    recommends
        starts_with_frame(order, input),
{
    input.subrange(4, 4 + prefix_value(order, input))
}

/// What follows the frame that `input` opens with.
pub open spec fn after_first_frame(order: Endianness, input: Seq<u8>) -> Seq<u8>
    recommends
        starts_with_frame(order, input),
{
    input.skip(4 + prefix_value(order, input))
}

/// The failure of a read from an input that opens with no whole frame.
pub open spec fn short_read(input: Seq<u8>) -> MessagingErrorView {
    MessagingErrorView {
        kind: ErrorKind::Io,
        context: if input.len() < 4 {
            "input ended inside the length field"@
        } else {
            "input ended inside the payload"@
        },
    }
}

/// The failure of a write whose payload is too long for a frame.
pub open spec fn oversize() -> MessagingErrorView {
    MessagingErrorView {
        kind: ErrorKind::Encode,
        context: "payload is too long for the length field"@,
    }
}

/// The length field of a frame equals the length of the payload that follows
/// it, and the frame holds nothing but the two.
pub proof fn lemma_length_field(order: Endianness, payload: Seq<u8>)
    requires
        fits(payload),
    ensures
        frame_of(order, payload).len() == 4 + payload.len(),
        prefix_value(order, frame_of(order, payload)) == payload.len(),
        frame_of(order, payload).subrange(0, 4) == prefix_bytes(order, payload.len() as int),
        frame_of(order, payload).skip(4) == payload,
{
    lemma_prefix_round_trip(order, payload.len() as int);
    assert(frame_of(order, payload).subrange(0, 4) =~= prefix_bytes(order, payload.len() as int));
    assert(frame_of(order, payload).skip(4) =~= payload);
}

/// Reading what was written gives it back: an input that begins with the
/// frame of a payload opens with a whole frame, whose payload is that payload
/// and after which comes what came after the frame.
pub proof fn lemma_frame_round_trip(order: Endianness, payload: Seq<u8>, rest: Seq<u8>)
    requires
        fits(payload),
    ensures
        starts_with_frame(order, frame_of(order, payload) + rest),
        first_payload(order, frame_of(order, payload) + rest) == payload,
        after_first_frame(order, frame_of(order, payload) + rest) == rest,
{
    lemma_length_field(order, payload);
    let input = frame_of(order, payload) + rest;
    assert(first_payload(order, input) =~= payload);
    assert(after_first_frame(order, input) =~= rest);
}

/// Writing what was read gives it back: the frame of the payload that an
/// input opens with is the very bytes that the reader took off the input. So
/// a payload has one frame, and a frame one payload.
pub proof fn lemma_frame_read_then_written(order: Endianness, input: Seq<u8>)
    requires
        starts_with_frame(order, input),
    ensures
        fits(first_payload(order, input)),
        frame_of(order, first_payload(order, input)) + after_first_frame(order, input) == input,
{
    lemma_prefix_canonical(order, input);
    assert(frame_of(order, first_payload(order, input)) + after_first_frame(order, input) =~= input);
}

/// Puts the frame of `payload` on the sink. A payload too long for the length
/// field is refused, and the sink stays as it was.
pub fn put_frame(out: &mut Vec<u8>, order: Endianness, payload: &[u8]) -> (r: Result<
    (),
    MessagingError,
>)
    ensures
        match r {
            Ok(_) => fits(payload@) && final(out)@ == old(out)@ + frame_of(order, payload@),
            Err(e) => !fits(payload@) && e@ == oversize() && final(out)@ == old(out)@,
        },
{
    if payload.len() > u32::MAX as usize {
        return Err(
            MessagingError::new(ErrorKind::Encode, "payload is too long for the length field"),
        );
    }
    let field = encode_prefix(order, payload.len() as u32);
    out.extend_from_slice(field.as_slice());
    out.extend_from_slice(payload);
    assert(out@ =~= old(out)@ + frame_of(order, payload@));
    Ok(())
}

/// The length of the payload that a length field declares. A field of fewer
/// than four bytes is an input that ended early.
pub fn payload_length(order: Endianness, header: &[u8]) -> (r: Result<usize, MessagingError>)
    ensures
        match r {
            Ok(n) => header@.len() >= 4 && n == prefix_value(order, header@),
            Err(e) => header@.len() < 4 && e@ == short_read(header@),
        },
{
    if header.len() < 4 {
        return Err(MessagingError::new(ErrorKind::Io, "input ended inside the length field"));
    }
    Ok(decode_prefix(order, header) as usize)
}

/// A reader over bytes held in memory. It stands where the input stream of a
/// process would: frames are taken off its front, one at a time.
pub struct FrameReader<'a> {
    order: Endianness,
    input: &'a [u8],
    position: usize,
}

impl<'a> View for FrameReader<'a> {
    type V = Seq<u8>;

    /// The bytes that are still to be read.
    closed spec fn view(&self) -> Seq<u8> {
        self.input@.skip(self.position as int)
    }
}

impl<'a> FrameReader<'a> {
    #[verifier::type_invariant]
    spec fn in_bounds(self) -> bool {
        self.position <= self.input@.len()
    }

    /// The order in which this reader takes the bytes of a length field.
    pub closed spec fn byte_order(&self) -> Endianness {
        self.order
    }

    /// A reader that has all of `input` before it.
    pub fn new(input: &'a [u8], order: Endianness) -> (reader: Self)
        ensures
            reader@ == input@,
            reader.byte_order() == order,
    {
        FrameReader { order, input, position: 0 }
    }

    /// Number of bytes that are still to be read.
    pub fn remaining(&self) -> (n: usize)
        ensures
            n == self@.len(),
    {
        proof {
            use_type_invariant(self);
        }
        self.input.len() - self.position
    }

    /// Takes one frame off the input and returns its payload. Where the input
    /// ends before the frame does, the read fails and the input is used up.
    pub fn read_frame(&mut self) -> (r: Result<&'a [u8], MessagingError>)
        ensures
            final(self).byte_order() == old(self).byte_order(),
            match r {
                Ok(payload) => {
                    &&& starts_with_frame(old(self).byte_order(), old(self)@)
                    &&& payload@ == first_payload(old(self).byte_order(), old(self)@)
                    &&& final(self)@ == after_first_frame(old(self).byte_order(), old(self)@)
                },
                Err(e) => {
                    &&& !starts_with_frame(old(self).byte_order(), old(self)@)
                    &&& e@ == short_read(old(self)@)
                    &&& final(self)@.len() == 0
                },
            },
    {
        proof {
            use_type_invariant(&*self);
        }
        let input = self.input;
        let start = self.position;
        let available = input.len() - start;
        let unread = slice_subrange(input, start, input.len());
        let declared = match payload_length(self.order, unread) {
            Ok(declared) => declared,
            Err(e) => {
                self.position = input.len();
                return Err(e);
            },
        };
        if declared > available - 4 {
            self.position = input.len();
            return Err(MessagingError::new(ErrorKind::Io, "input ended inside the payload"));
        }
        let payload = slice_subrange(input, start + 4, start + 4 + declared);
        self.position = start + 4 + declared;
        Ok(payload)
    }
}

} // verus!
