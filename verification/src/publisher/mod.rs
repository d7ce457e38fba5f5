//! From a record to what is handed to the bus.

pub mod art_changes;
pub mod broadcast;
pub mod codec;
pub mod direct;
pub mod frame;
pub mod json;
pub mod messages;

pub use art_changes::art_change_envelope;
pub use direct::{direct_envelope, direct_relay};
pub use messages::{message_envelope, sequenced_message_envelope};

use vstd::prelude::*;
use crate::types::centrifugo::CentrifugoEventType;
use crate::types::outbox::{MessageOutbox, MessageOutboxView};

verus! {

/// Why a record could not be turned into an envelope.
#[derive(Debug, Clone, Copy, PartialEq, Eq, Structural)]
pub enum EncodeError {
    /// The stored payload is not a well-formed frame.
    MalformedFrame,
    /// The payload is too long for its text form to fit into memory.
    PayloadTooLarge,
}

/// What is handed to the bus: where the bytes go, and the bytes.
#[derive(Debug, Clone, PartialEq, Eq)]
pub struct Envelope {
    /// The subject that the bytes are published to.
    pub destination: String,
    /// The bytes.
    pub payload: Vec<u8>,
}

/// The mathematical value of an [`Envelope`].
pub struct EnvelopeView {
    pub destination: Seq<char>,
    pub payload: Seq<u8>,
}

impl View for Envelope {
    type V = EnvelopeView;

    open spec fn view(&self) -> EnvelopeView {
        EnvelopeView { destination: self.destination@, payload: self.payload@ }
    }
}

/// How the records of one outbox table are turned into envelopes. A table
/// has one encoder for all its records.
#[derive(Debug, Clone, Copy, PartialEq, Eq, Structural)]
pub enum Encoder {
    /// The content goes out unchanged, to `<subject>.<chat_id>`.
    Direct,
    /// The content goes out as base64 text inside a broadcast envelope with
    /// this event type, to `<subject>.<namespace>.<chat_id>`.
    Broadcast(CentrifugoEventType),
    /// The content is a stored frame. It is wrapped together with the
    /// record's sequence number and creation time, and the wrapping goes out
    /// inside a broadcast envelope as a message.
    SequencedFrame,
}

/// What is handed to the bus for `record`, or why nothing is.
pub open spec fn record_envelope(
    encoder: Encoder,
    record: MessageOutboxView,
    namespace: Seq<char>,
    subject: Seq<char>,
) -> Result<EnvelopeView, EncodeError> {
    match encoder {
        Encoder::Direct => Ok(direct::direct(record.chat_id, record.content, subject)),
        Encoder::Broadcast(event_type) => broadcast::broadcast_envelope(
            event_type,
            record.chat_id,
            record.content,
            namespace,
            subject,
        ),
        Encoder::SequencedFrame => messages::sequenced_envelope(record, namespace, subject),
    }
}

/// Turns a record into what is handed to the bus.
pub fn encode_record(encoder: Encoder, record: &MessageOutbox, namespace: &str, subject: &str) -> (envelope:
    Result<Envelope, EncodeError>)
    ensures
        broadcast::encoded_view(envelope) == record_envelope(
            encoder,
            record@,
            namespace@,
            subject@,
        ),
{
    match encoder {
        Encoder::Direct => Ok(
            direct_relay(record.chat_id.as_str(), record.content.as_slice(), subject),
        ),
        Encoder::Broadcast(event_type) => broadcast::broadcast(
            event_type,
            record.chat_id.as_str(),
            record.content.as_slice(),
            namespace,
            subject,
        ),
        Encoder::SequencedFrame => sequenced_message_envelope(record, namespace, subject),
    }
}

} // verus!
