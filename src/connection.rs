//! One connection, one request, at most one response. The connection moves
//! through `ReadingLength -> ReadingPayload -> Encoding -> WritingResponse ->
//! Closed`; `step` decides each move from the state and what the transport or
//! the encoder reported, and says what to do next.

use vstd::prelude::*;
use vstd::string::StringSliceAdditionalSpecFns;
use vstd::utf8::encode_utf8;
use crate::frame::{
    MAX_IMAGE_SIZE, be32_value, valid_length, success_response, error_response,
    length_from_bytes, check_length, success_frame, error_frame, encode_response, append_bytes,
    STATUS_ERROR,
};
use crate::transcode::{Pixels, decode_error, decode_pixels};

verus! {

/// Sent when the declared length is zero or above the limit.
pub const INVALID_SIZE: &'static str = "Invalid size";

/// Sent when the peer closed before the whole payload arrived.
pub const READ_FAILED: &'static str = "Read failed";

/// Put in front of the decoder's reason when the payload does not decode.
pub const DECODE_FAILED: &'static str = "Decode failed: ";

/// Sent when a response would not fit in one frame.
pub const RESPONSE_TOO_LARGE: &'static str = "Response too large";

/// Where a connection stands.
#[derive(Clone, Copy, Debug, PartialEq, Eq, Structural)]
pub enum State {
    /// Waiting for the 4-byte length field.
    ReadingLength,
    /// Waiting for exactly `len` payload bytes.
    ReadingPayload { len: usize },
    /// The payload decoded; waiting for the compressed image.
    Encoding,
    /// One response is being written.
    WritingResponse,
    /// Nothing more happens on this connection.
    Closed,
}

/// What the transport or the encoder reported.
pub enum Event {
    /// The four length bytes arrived.
    LengthRead([u8; 4]),
    /// The payload arrived.
    PayloadRead(Vec<u8>),
    /// The peer closed before the requested bytes arrived.
    ShortRead,
    /// The encoder compressed the decoded pixels into these bytes.
    Encoded(Vec<u8>),
    /// The response was written and flushed.
    Written,
    /// Writing or flushing the response failed.
    WriteFailed,
}

/// What to do next.
pub enum Action {
    /// Read exactly this many payload bytes.
    ReadPayload(usize),
    /// Compress these pixels and report `Encoded`.
    Encode(Pixels),
    /// Write these bytes, flush, and report `Written` or `WriteFailed`.
    Respond(Vec<u8>),
    /// Drop the connection.
    Close,
}

/// An action as the contracts see it.
pub enum Plan {
    /// Read this many payload bytes.
    ReadPayload(nat),
    /// Compress the decoded pixels.
    Encode,
    /// Write exactly these bytes.
    Respond(Seq<u8>),
    /// Drop the connection.
    Close,
}

/// The view of an action: its pixels left out, its bytes as a sequence.
pub open spec fn plan_of(a: Action) -> Plan {
    match a {
        Action::ReadPayload(n) => Plan::ReadPayload(n as nat),
        Action::Encode(_) => Plan::Encode,
        Action::Respond(bytes) => Plan::Respond(bytes@),
        Action::Close => Plan::Close,
    }
}

/// The message bytes of a decode failure with the decoder's `reason`.
pub open spec fn decode_failure_message(reason: Seq<char>) -> Seq<u8> {
    DECODE_FAILED.spec_bytes() + encode_utf8(reason)
}

/// An error response with `msg`, or the fixed oversize error where `msg`
/// does not fit in one frame.
pub open spec fn error_or_oversize(msg: Seq<u8>) -> Seq<u8> {
    if msg.len() <= u32::MAX {
        error_response(msg)
    } else {
        error_response(RESPONSE_TOO_LARGE.spec_bytes())
    }
}

/// The next state and what to do, for every state and event.
pub open spec fn transition(s: State, e: Event) -> (State, Plan) {
    match s {
        State::ReadingLength => match e {
            Event::LengthRead(b) => if valid_length(be32_value(b@)) {
                (
                    State::ReadingPayload { len: be32_value(b@) as usize },
                    Plan::ReadPayload(be32_value(b@) as nat),
                )
            } else {
                (State::WritingResponse, Plan::Respond(error_response(INVALID_SIZE.spec_bytes())))
            },
            _ => (State::Closed, Plan::Close),
        },
        State::ReadingPayload { len } => match e {
            Event::PayloadRead(data) => if data@.len() == len {
                match decode_error(data@) {
                    None => (State::Encoding, Plan::Encode),
                    Some(reason) => (
                        State::WritingResponse,
                        Plan::Respond(error_or_oversize(decode_failure_message(reason))),
                    ),
                }
            } else {
                (State::WritingResponse, Plan::Respond(error_response(READ_FAILED.spec_bytes())))
            },
            Event::ShortRead => (
                State::WritingResponse,
                Plan::Respond(error_response(READ_FAILED.spec_bytes())),
            ),
            _ => (State::Closed, Plan::Close),
        },
        State::Encoding => match e {
            Event::Encoded(out) => (
                State::WritingResponse,
                Plan::Respond(
                    if out@.len() <= u32::MAX {
                        success_response(out@)
                    } else {
                        error_response(RESPONSE_TOO_LARGE.spec_bytes())
                    },
                ),
            ),
            _ => (State::Closed, Plan::Close),
        },
        State::WritingResponse => (State::Closed, Plan::Close),
        State::Closed => (State::Closed, Plan::Close),
    }
}

/// The fixed messages are short ASCII text.
proof fn lemma_fixed_messages()
    ensures
        INVALID_SIZE.spec_bytes().len() == 12,
        READ_FAILED.spec_bytes().len() == 11,
        DECODE_FAILED.spec_bytes().len() == 15,
        RESPONSE_TOO_LARGE.spec_bytes().len() == 18,
{
    broadcast use vstd::string::is_ascii_spec_bytes;

    reveal_strlit("Invalid size");
    reveal_strlit("Read failed");
    reveal_strlit("Decode failed: ");
    reveal_strlit("Response too large");
    assert(vstd::string::is_ascii(INVALID_SIZE));
    assert(vstd::string::is_ascii(READ_FAILED));
    assert(vstd::string::is_ascii(DECODE_FAILED));
    assert(vstd::string::is_ascii(RESPONSE_TOO_LARGE));
}

/// The first action on a fresh connection is to read the length field.
pub fn start() -> (r: State)
    ensures
        r == State::ReadingLength,
{
    State::ReadingLength
}

/// An error frame with `msg`, or the oversize error where `msg` is too long.
fn error_frame_bytes(msg: &[u8]) -> (r: Vec<u8>)
    ensures
        r@ == error_or_oversize(msg@),
{
    proof {
        lemma_fixed_messages();
    }
    if msg.len() as u64 <= u32::MAX as u64 {
        encode_response(STATUS_ERROR, msg)
    } else {
        error_frame(RESPONSE_TOO_LARGE)
    }
}

/// The message of a decode failure: the fixed prefix, then `reason`.
pub fn decode_failure_bytes(reason: &str) -> (r: Vec<u8>)
    ensures
        r@ == decode_failure_message(reason@),
{
    let mut out: Vec<u8> = Vec::new();
    append_bytes(&mut out, DECODE_FAILED.as_bytes());
    append_bytes(&mut out, reason.as_bytes());
    assert(out@ =~= decode_failure_message(reason@));
    out
}

/// Decides the next state and action.
pub fn step(s: State, e: Event) -> (r: (State, Action))
    ensures
        r.0 == transition(s, e).0,
        plan_of(r.1) == transition(s, e).1,
        r.1 matches Action::Encode(p) ==> p.wf(),
{
    proof {
        lemma_fixed_messages();
    }
    match s {
        State::ReadingLength => match e {
            Event::LengthRead(b) => {
                let n = length_from_bytes(b);
                match check_length(n, MAX_IMAGE_SIZE) {
                    Ok(len) => (State::ReadingPayload { len }, Action::ReadPayload(len)),
                    Err(_) => (State::WritingResponse, Action::Respond(error_frame(INVALID_SIZE))),
                }
            },
            _ => (State::Closed, Action::Close),
        },
        State::ReadingPayload { len } => match e {
            Event::PayloadRead(data) => {
                if data.len() == len {
                    match decode_pixels(data.as_slice()) {
                        Ok(pixels) => (State::Encoding, Action::Encode(pixels)),
                        Err(reason) => {
                            let msg = decode_failure_bytes(reason.as_str());
                            (State::WritingResponse, Action::Respond(error_frame_bytes(msg.as_slice())))
                        },
                    }
                } else {
                    (State::WritingResponse, Action::Respond(error_frame(READ_FAILED)))
                }
            },
            Event::ShortRead => (State::WritingResponse, Action::Respond(error_frame(READ_FAILED))),
            _ => (State::Closed, Action::Close),
        },
        State::Encoding => match e {
            Event::Encoded(out) => {
                if out.len() as u64 <= u32::MAX as u64 {
                    (State::WritingResponse, Action::Respond(success_frame(out.as_slice())))
                } else {
                    (State::WritingResponse, Action::Respond(error_frame(RESPONSE_TOO_LARGE)))
                }
            },
            _ => (State::Closed, Action::Close),
        },
        State::WritingResponse => (State::Closed, Action::Close),
        State::Closed => (State::Closed, Action::Close),
    }
}

/// A request of valid declared length whose payload decodes is read in full,
/// handed to the encoder, and answered with one success frame that carries
/// the encoder's output; after that the connection closes.
pub proof fn lemma_valid_image_succeeds(b: [u8; 4], data: Vec<u8>, out: Vec<u8>, after: Event)
    requires
        valid_length(be32_value(b@)),
        data@.len() == be32_value(b@),
        decode_error(data@) is None,
        out@.len() <= u32::MAX,
    ensures
        transition(State::ReadingLength, Event::LengthRead(b)) == (
            State::ReadingPayload { len: data@.len() as usize },
            Plan::ReadPayload(data@.len()),
        ),
        transition(State::ReadingPayload { len: data@.len() as usize }, Event::PayloadRead(data))
            == (State::Encoding, Plan::Encode),
        transition(State::Encoding, Event::Encoded(out)) == (
            State::WritingResponse,
            Plan::Respond(success_response(out@)),
        ),
        transition(State::WritingResponse, after) == (State::Closed, Plan::Close),
{
}

/// A declared length of zero or above the limit is answered with the
/// "Invalid size" error frame, no payload is read, and the connection closes.
pub proof fn lemma_invalid_size_rejected(b: [u8; 4], after: Event)
    requires
        !valid_length(be32_value(b@)),
    ensures
        transition(State::ReadingLength, Event::LengthRead(b)) == (
            State::WritingResponse,
            Plan::Respond(error_response(INVALID_SIZE.spec_bytes())),
        ),
        transition(State::WritingResponse, after) == (State::Closed, Plan::Close),
{
}

/// A payload of the declared length that does not decode is answered with an
/// error frame whose message starts with "Decode failed: " and goes on with
/// the decoder's reason; then the connection closes.
pub proof fn lemma_malformed_image_rejected(len: usize, data: Vec<u8>, after: Event)
    requires
        valid_length(len as int),
        data@.len() == len,
        decode_error(data@) is Some,
    ensures
        transition(State::ReadingPayload { len }, Event::PayloadRead(data)) == (
            State::WritingResponse,
            Plan::Respond(error_or_oversize(decode_failure_message(decode_error(data@)->0))),
        ),
        decode_failure_message(decode_error(data@)->0).len() <= u32::MAX ==>
            error_or_oversize(decode_failure_message(decode_error(data@)->0))
                == error_response(DECODE_FAILED.spec_bytes() + encode_utf8(decode_error(data@)->0)),
        transition(State::WritingResponse, after) == (State::Closed, Plan::Close),
{
}

/// A peer that closes before the four length bytes arrive gets no response,
/// and the connection is released.
pub proof fn lemma_short_length_closes()
    ensures
        transition(State::ReadingLength, Event::ShortRead) == (State::Closed, Plan::Close),
{
}

/// A peer that closes after a valid length but before the whole payload gets
/// the "Read failed" error frame, which is never a decode-failure response.
pub proof fn lemma_short_payload_read_failed(len: usize, reason: Seq<char>, after: Event)
    requires
        valid_length(len as int),
    ensures
        transition(State::ReadingPayload { len }, Event::ShortRead) == (
            State::WritingResponse,
            Plan::Respond(error_response(READ_FAILED.spec_bytes())),
        ),
        error_response(READ_FAILED.spec_bytes()) != error_or_oversize(decode_failure_message(reason)),
        transition(State::WritingResponse, after) == (State::Closed, Plan::Close),
{
    broadcast use vstd::string::is_ascii_spec_bytes;

    lemma_fixed_messages();
    reveal_strlit("Read failed");
    reveal_strlit("Decode failed: ");
    reveal_strlit("Response too large");
    let read = error_response(READ_FAILED.spec_bytes());
    let msg = decode_failure_message(reason);
    assert(vstd::string::is_ascii(READ_FAILED));
    assert(vstd::string::is_ascii(DECODE_FAILED));
    assert(READ_FAILED.spec_bytes()[0] == 82);
    assert(DECODE_FAILED.spec_bytes()[0] == 68);
    assert(read[5] == READ_FAILED.spec_bytes()[0]);
    if msg.len() <= u32::MAX {
        assert(error_or_oversize(msg)[5] == DECODE_FAILED.spec_bytes()[0]);
        assert(read[5] != error_or_oversize(msg)[5]);
    } else {
        assert(read[4] == 11);
        assert(error_or_oversize(msg)[4] == 18);
    }
}

} // verus!
