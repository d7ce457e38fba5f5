//! The binary envelope that carries a stored frame together with the
//! sequence number and creation time that the relay gives it.
//!
//! The envelope is a protocol-buffer message with three fields: the sequence
//! number (field 1, a varint, left out where it is zero), the creation time
//! (field 2, a timestamp message) and the stored frame (field 3, a message).

use vstd::prelude::*;
use crate::publisher::codec::{timestamp_bytes, timestamp_wire};
use crate::types::outbox::Timestamp;

verus! {

/// The key byte of field 1 with wire type varint.
pub const SEQ_NUM_KEY: u8 = 0x08;

/// The key byte of field 2 with wire type length-delimited.
pub const CREATED_KEY: u8 = 0x12;

/// The key byte of field 3 with wire type length-delimited.
pub const FRAME_KEY: u8 = 0x1a;

/// The base-128 varint of `value`: seven bits to a byte, the lowest first,
/// the top bit set on every byte but the last.
pub open spec fn varint(value: nat) -> Seq<u8>
    decreases value,
{
    if value < 128 {
        seq![value as u8]
    } else {
        seq![(128 + value % 128) as u8] + varint(value / 128)
    }
}

/// A length-delimited field: its key byte, the length of its body as a
/// varint, and the body.
pub open spec fn length_delimited(key: u8, body: Seq<u8>) -> Seq<u8> {
    seq![key] + varint(body.len()) + body
}

/// The sequence-number field: nothing where the number is zero.
pub open spec fn seq_num_field(seq_num: u64) -> Seq<u8> {
    if seq_num == 0 {
        Seq::<u8>::empty()
    } else {
        seq![SEQ_NUM_KEY] + varint(seq_num as nat)
    }
}

/// The envelope around `frame`, given the bytes of its creation time.
pub open spec fn sequenced_frame(seq_num: u64, created: Seq<u8>, frame: Seq<u8>) -> Seq<u8> {
    seq_num_field(seq_num) + length_delimited(CREATED_KEY, created) + length_delimited(
        FRAME_KEY,
        frame,
    )
}

/// The envelope around the frame of a record with this sequence number and
/// creation time. A negative sequence number wraps around to 64 unsigned
/// bits, and the nanoseconds to 32 signed bits.
pub open spec fn record_frame(sequence_number: i64, created_at: Timestamp, frame: Seq<u8>) -> Seq<
    u8,
> {
    sequenced_frame(
        sequence_number as u64,
        timestamp_wire(created_at.seconds, created_at.nanos as i32),
        frame,
    )
}

/// Appends the varint of `value` to `buf`.
pub fn put_varint(buf: &mut Vec<u8>, value: u64)
    ensures
        final(buf)@ == old(buf)@ + varint(value as nat),
{
    let mut rest: u64 = value;
    while rest >= 128
        invariant
            buf@ + varint(rest as nat) == old(buf)@ + varint(value as nat),
        decreases rest,
    {
        let low: u8 = (rest % 128) as u8;
        buf.push(128 + low);
        rest = rest / 128;
    }
    buf.push(rest as u8);
}

/// Appends `bytes` to `buf`.
pub fn put_bytes(buf: &mut Vec<u8>, bytes: &[u8])
    ensures
        final(buf)@ == old(buf)@ + bytes@,
{
    let mut i: usize = 0;
    while i < bytes.len()
        invariant
            i <= bytes@.len(),
            buf@ == old(buf)@ + bytes@.subrange(0, i as int),
        decreases bytes@.len() - i,
    {
        buf.push(bytes[i]);
        i += 1;
    }
}

/// Appends a length-delimited field with this key byte and body to `buf`.
pub fn put_length_delimited(buf: &mut Vec<u8>, key: u8, body: &[u8])
    ensures
        final(buf)@ == old(buf)@ + length_delimited(key, body@),
{
    buf.push(key);
    put_varint(buf, body.len() as u64);
    put_bytes(buf, body);
}

/// Wraps a stored frame into the envelope that carries its sequence number
/// and creation time.
pub fn wrap_frame(sequence_number: i64, created_at: Timestamp, frame: &[u8]) -> (bytes: Vec<u8>)
    ensures
        bytes@ == record_frame(sequence_number, created_at, frame@),
{
    let seq_num: u64 = #[verifier::truncate] (sequence_number as u64);
    let nanos: i32 = #[verifier::truncate] (created_at.nanos as i32);
    let created = timestamp_bytes(created_at.seconds, nanos);
    let mut bytes: Vec<u8> = Vec::new();
    if seq_num != 0 {
        bytes.push(SEQ_NUM_KEY);
        put_varint(&mut bytes, seq_num);
    }
    put_length_delimited(&mut bytes, CREATED_KEY, created.as_slice());
    put_length_delimited(&mut bytes, FRAME_KEY, frame);
    bytes
}

} // verus!
