//! Envelopes for the messages of a chat.

use vstd::prelude::*;
use crate::publisher::broadcast::{broadcast, broadcast_envelope, encoded_view};
use crate::publisher::codec::{fields_are_well_formed, well_formed_fields};
use crate::publisher::frame::{record_frame, wrap_frame};
use crate::publisher::{EncodeError, Envelope, EnvelopeView};
use crate::types::centrifugo::CentrifugoEventType;
use crate::types::outbox::{MessageOutbox, MessageOutboxView};

verus! {

/// What is handed to the bus for a stored frame, or why nothing is: the
/// frame, where it is well formed, is wrapped together with the record's
/// sequence number and creation time, and the wrapping goes out as a message.
pub open spec fn sequenced_envelope(
    record: MessageOutboxView,
    namespace: Seq<char>,
    subject: Seq<char>,
) -> Result<EnvelopeView, EncodeError> {
    if !well_formed_fields(record.content) {
        Err(EncodeError::MalformedFrame)
    } else {
        broadcast_envelope(
            CentrifugoEventType::Message,
            record.chat_id,
            record_frame(record.sequence_number, record.created_at, record.content),
            namespace,
            subject,
        )
    }
}

/// Builds the envelope that announces a message to the subscribers of a
/// chat, and the subject it goes to.
pub fn message_envelope(chat_id: &str, data: &[u8], namespace: &str, subject: &str) -> (envelope:
    Result<Envelope, EncodeError>)
    ensures
        encoded_view(envelope) == broadcast_envelope(
            CentrifugoEventType::Message,
            chat_id@,
            data@,
            namespace@,
            subject@,
        ),
{
    broadcast(CentrifugoEventType::Message, chat_id, data, namespace, subject)
}

/// Builds the envelope for a record whose content is a stored frame.
///
/// Fails with [`EncodeError::MalformedFrame`] where the content is not a
/// sequence of well-formed protocol-buffer fields, and otherwise as
/// [`message_envelope`] does.
pub fn sequenced_message_envelope(record: &MessageOutbox, namespace: &str, subject: &str) -> (envelope:
    Result<Envelope, EncodeError>)
    ensures
        encoded_view(envelope) == sequenced_envelope(record@, namespace@, subject@),
{
    if !fields_are_well_formed(record.content.as_slice()) {
        return Err(EncodeError::MalformedFrame);
    }
    let wrapped = wrap_frame(record.sequence_number, record.created_at, record.content.as_slice());
    message_envelope(record.chat_id.as_str(), wrapped.as_slice(), namespace, subject)
}

} // verus!
