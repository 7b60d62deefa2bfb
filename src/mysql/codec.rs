//! Packet framing: a 3-byte little-endian payload length, a sequence
//! number, then the payload.
use vstd::prelude::*;
use vstd::slice::{slice_subrange, slice_to_vec};
use crate::wire::{
    byte_range, le_bytes, le_value, lemma_le_bytes_len, lemma_le_round_trip, push_u24_le,
    read_u24_le,
};

verus! {

/// Payloads must be shorter than this (2^24 - 1 bytes).
pub const MAX_PACKET_SIZE: u32 = 16_777_215;

/// Why a payload could not be framed.
#[derive(Clone, Copy, Debug, PartialEq, Eq, Structural)]
pub enum FrameError {
    /// The payload is too long for one packet.
    Unsupported,
}

/// A decoded packet: its sequence number and payload.
#[derive(Debug)]
pub struct Frame {
    pub seq: u8,
    pub payload: Vec<u8>,
}

/// The bytes of one packet carrying `payload` with sequence number `seq`.
pub open spec fn frame_bytes(payload: Seq<u8>, seq: u8) -> Seq<u8> {
    le_bytes(payload.len(), 3) + seq![seq] + payload
}

/// The packet at the front of `buf`, as sequence number and payload; `None`
/// while `buf` holds less than a whole packet.
pub open spec fn frame_at(buf: Seq<u8>) -> Option<(u8, Seq<u8>)> {
    if buf.len() < 4 {
        None
    } else {
        let len = le_value(buf.subrange(0, 3));
        if buf.len() < 4 + len {
            None
        } else {
            Some((buf[3], buf.subrange(4, 4 + len as int)))
        }
    }
}

/// Appends one packet to `out`; a payload of `MAX_PACKET_SIZE` bytes or
/// more is refused and nothing is written.
pub fn write_frame(out: &mut Vec<u8>, payload: &[u8], seq: u8) -> (r: Result<(), FrameError>)
    ensures
        payload@.len() < MAX_PACKET_SIZE ==> r is Ok && final(out)@ == old(out)@ + frame_bytes(
            payload@,
            seq,
        ),
        payload@.len() >= MAX_PACKET_SIZE ==> r == Err::<(), FrameError>(FrameError::Unsupported)
            && final(out)@ == old(out)@,
{
    if payload.len() >= MAX_PACKET_SIZE as usize {
        return Err(FrameError::Unsupported);
    }
    push_u24_le(out, payload.len() as u32);
    out.push(seq);
    out.extend_from_slice(payload);
    assert(final(out)@ =~= old(out)@ + frame_bytes(payload@, seq));
    Ok(())
}

/// The payload length that a 4-byte packet header announces.
pub fn payload_length(header: &[u8]) -> (r: usize)
    requires
        header@.len() >= 4,
    ensures
        r == le_value(header@.subrange(0, 3)),
{
    read_u24_le(header, 0) as usize
}

/// Decodes the packet at the front of `buf`.
pub fn read_frame(buf: &[u8]) -> (r: Option<Frame>)
    ensures
        match r {
            Some(f) => frame_at(buf@) == Some((f.seq, f.payload@)),
            None => frame_at(buf@) is None,
        },
{
    if buf.len() < 4 {
        return None;
    }
    let len = payload_length(buf);
    if buf.len() - 4 < len {
        return None;
    }
    let payload = slice_to_vec(slice_subrange(buf, 4, 4 + len));
    Some(Frame { seq: buf[3], payload })
}

/// Decoding a framed payload, whatever follows it, gives back the payload
/// and its sequence number.
pub proof fn lemma_frame_round_trip(payload: Seq<u8>, seq: u8, rest: Seq<u8>)
    requires
        payload.len() < MAX_PACKET_SIZE,
    ensures
        frame_at(frame_bytes(payload, seq) + rest) == Some((seq, payload)),
{
    let buf = frame_bytes(payload, seq) + rest;
    reveal_with_fuel(byte_range, 4);
    lemma_le_round_trip(payload.len(), 3);
    lemma_le_bytes_len(payload.len(), 3);
    assert(buf.subrange(0, 3) =~= le_bytes(payload.len(), 3));
    assert(buf.subrange(4, 4 + payload.len() as int) =~= payload);
}

} // verus!
