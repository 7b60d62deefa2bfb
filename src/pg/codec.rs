//! Message framing: a type tag, a 4-byte big-endian length that counts
//! itself but not the tag, then the body. The startup message has no tag.
use vstd::prelude::*;
use vstd::slice::{slice_subrange, slice_to_vec};
use crate::pg::message::{response_payload, response_tag, ResponseMessage};
use crate::wire::{
    be_bytes, be_value, byte_range, lemma_be_bytes_len, lemma_be_round_trip, push_u32_be,
    read_u32_be,
};

verus! {

/// The longest body whose length field still fits in 32 bits.
pub const MAX_BODY_LEN: u32 = 4_294_967_291;

/// Why a message could not be framed or read.
#[derive(Clone, Copy, Debug, PartialEq, Eq, Structural)]
pub enum MessageError {
    /// The body is too long for the length field.
    Oversized,
    /// The buffer ends before the message does.
    Incomplete,
    /// The length field is below 4, the size of the field itself.
    BadLength,
}

/// A decoded message: its type tag and body.
#[derive(Debug)]
pub struct Message {
    pub tag: u8,
    pub body: Vec<u8>,
}

/// The bytes of one message with type tag `tag` and body `body`.
pub open spec fn message_bytes(tag: u8, body: Seq<u8>) -> Seq<u8> {
    seq![tag] + be_bytes(body.len() + 4, 4) + body
}

/// The body length that a length field announces.
pub open spec fn announced_body(len_field: Seq<u8>) -> Result<nat, MessageError> {
    let n = be_value(len_field.subrange(0, 4));
    if n < 4 {
        Err(MessageError::BadLength)
    } else {
        Ok((n - 4) as nat)
    }
}

/// The tagged message at the front of `buf`.
pub open spec fn message_at(buf: Seq<u8>) -> Result<(u8, Seq<u8>), MessageError> {
    if buf.len() < 5 {
        Err(MessageError::Incomplete)
    } else {
        match announced_body(buf.subrange(1, 5)) {
            Err(e) => Err(e),
            Ok(n) => if buf.len() < 5 + n {
                Err(MessageError::Incomplete)
            } else {
                Ok((buf[0], buf.subrange(5, 5 + n as int)))
            },
        }
    }
}

/// The body of the untagged startup message at the front of `buf`.
pub open spec fn startup_at(buf: Seq<u8>) -> Result<Seq<u8>, MessageError> {
    if buf.len() < 4 {
        Err(MessageError::Incomplete)
    } else {
        match announced_body(buf) {
            Err(e) => Err(e),
            Ok(n) => if buf.len() < 4 + n {
                Err(MessageError::Incomplete)
            } else {
                Ok(buf.subrange(4, 4 + n as int))
            },
        }
    }
}

/// Appends one message to `out`; a body longer than `MAX_BODY_LEN` is
/// refused and nothing is written.
pub fn write_message(out: &mut Vec<u8>, tag: u8, body: &[u8]) -> (r: Result<(), MessageError>)
    ensures
        body@.len() <= MAX_BODY_LEN ==> r is Ok && final(out)@ == old(out)@ + message_bytes(
            tag,
            body@,
        ),
        body@.len() > MAX_BODY_LEN ==> r == Err::<(), MessageError>(MessageError::Oversized)
            && final(out)@ == old(out)@,
{
    if body.len() > MAX_BODY_LEN as usize {
        return Err(MessageError::Oversized);
    }
    out.push(tag);
    push_u32_be(out, body.len() as u32 + 4);
    out.extend_from_slice(body);
    assert(final(out)@ =~= old(out)@ + message_bytes(tag, body@));
    Ok(())
}

/// Appends one server message, tag and body, to `out`.
pub fn write_response(out: &mut Vec<u8>, m: &ResponseMessage) -> (r: Result<(), MessageError>)
    ensures
        response_payload(*m).len() <= MAX_BODY_LEN ==> r is Ok && final(out)@ == old(out)@
            + message_bytes(response_tag(*m), response_payload(*m)),
        response_payload(*m).len() > MAX_BODY_LEN ==> r == Err::<(), MessageError>(
            MessageError::Oversized,
        ) && final(out)@ == old(out)@,
{
    let body = m.as_bytes();
    write_message(out, m.message_type(), body.as_slice())
}

/// The body length that a 4-byte length field announces.
pub fn body_length(len_field: &[u8]) -> (r: Result<usize, MessageError>)
    requires
        len_field@.len() >= 4,
    ensures
        match r {
            Ok(n) => announced_body(len_field@) == Ok::<nat, MessageError>(n as nat),
            Err(e) => announced_body(len_field@) == Err::<nat, MessageError>(e),
        },
{
    let n = read_u32_be(len_field, 0);
    if n < 4 {
        Err(MessageError::BadLength)
    } else {
        Ok((n - 4) as usize)
    }
}

/// Decodes the tagged message at the front of `buf`.
pub fn read_message(buf: &[u8]) -> (r: Result<Message, MessageError>)
    ensures
        match r {
            Ok(m) => message_at(buf@) == Ok::<(u8, Seq<u8>), MessageError>((m.tag, m.body@)),
            Err(e) => message_at(buf@) == Err::<(u8, Seq<u8>), MessageError>(e),
        },
{
    if buf.len() < 5 {
        return Err(MessageError::Incomplete);
    }
    let field = slice_subrange(buf, 1, 5);
    assert(field@.subrange(0, 4) =~= buf@.subrange(1, 5));
    let n = match body_length(field) {
        Ok(n) => n,
        Err(e) => {
            return Err(e);
        },
    };
    if buf.len() - 5 < n {
        return Err(MessageError::Incomplete);
    }
    let body = slice_to_vec(slice_subrange(buf, 5, 5 + n));
    Ok(Message { tag: buf[0], body })
}

/// Decodes the startup message at the front of `buf`.
pub fn read_startup(buf: &[u8]) -> (r: Result<Vec<u8>, MessageError>)
    ensures
        match r {
            Ok(b) => startup_at(buf@) == Ok::<Seq<u8>, MessageError>(b@),
            Err(e) => startup_at(buf@) == Err::<Seq<u8>, MessageError>(e),
        },
{
    if buf.len() < 4 {
        return Err(MessageError::Incomplete);
    }
    let n = match body_length(buf) {
        Ok(n) => n,
        Err(e) => {
            return Err(e);
        },
    };
    if buf.len() - 4 < n {
        return Err(MessageError::Incomplete);
    }
    Ok(slice_to_vec(slice_subrange(buf, 4, 4 + n)))
}

/// Decoding a framed message, whatever follows it, gives back its tag and
/// body.
pub proof fn lemma_message_round_trip(tag: u8, body: Seq<u8>, rest: Seq<u8>)
    requires
        body.len() <= MAX_BODY_LEN,
    ensures
        message_at(message_bytes(tag, body) + rest) == Ok::<(u8, Seq<u8>), MessageError>(
            (tag, body),
        ),
{
    let buf = message_bytes(tag, body) + rest;
    reveal_with_fuel(byte_range, 5);
    lemma_be_round_trip(body.len() + 4, 4);
    lemma_be_bytes_len(body.len() + 4, 4);
    assert(buf.subrange(1, 5).subrange(0, 4) =~= be_bytes(body.len() + 4, 4));
    assert(buf.subrange(5, 5 + body.len() as int) =~= body);
}

} // verus!
