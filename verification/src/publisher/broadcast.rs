//! The broadcast envelope: a JSON document that names the subscribers'
//! channel and carries the payload as base64 text.

use vstd::prelude::*;
use vstd::string::StringExecFns;
use vstd::utf8::encode_utf8;
use crate::publisher::codec::{base64_input_limit, base64_standard, base64_text};
use crate::publisher::json::{encode_message, message_json};
use crate::publisher::{EncodeError, Envelope, EnvelopeView};
use crate::types::centrifugo::{
    CentrifugoEventType,
    CentrifugoMessage,
    CentrifugoMessageView,
    CentrifugoMethod,
    CentrifugoPayload,
    CentrifugoPayloadView,
};

verus! {

/// The channel on which the subscribers of a chat listen:
/// `<namespace>:<chat_id>`.
pub open spec fn channel_name(namespace: Seq<char>, chat_id: Seq<char>) -> Seq<char> {
    namespace + ":"@ + chat_id
}

/// The subject that a broadcast envelope is published to:
/// `<subject>.<namespace>.<chat_id>`.
pub open spec fn broadcast_subject(subject: Seq<char>, namespace: Seq<char>, chat_id: Seq<char>) -> Seq<char> {
    subject + "."@ + namespace + "."@ + chat_id
}

/// The broadcast envelope for `data`: one channel, the event type given, and
/// the data as base64 text.
pub open spec fn broadcast_message(
    event_type: CentrifugoEventType,
    chat_id: Seq<char>,
    data: Seq<u8>,
    namespace: Seq<char>,
) -> CentrifugoMessageView {
    CentrifugoMessageView {
        method: CentrifugoMethod::Broadcast,
        payload: CentrifugoPayloadView {
            channels: seq![channel_name(namespace, chat_id)],
            event_type,
            data: base64_text(data),
        },
    }
}

/// What is handed to the bus for `data`, or why nothing is.
pub open spec fn broadcast_envelope(
    event_type: CentrifugoEventType,
    chat_id: Seq<char>,
    data: Seq<u8>,
    namespace: Seq<char>,
    subject: Seq<char>,
) -> Result<EnvelopeView, EncodeError> {
    if data.len() > base64_input_limit() {
        Err(EncodeError::PayloadTooLarge)
    } else {
        Ok(
            EnvelopeView {
                destination: broadcast_subject(subject, namespace, chat_id),
                payload: encode_utf8(
                    message_json(broadcast_message(event_type, chat_id, data, namespace)),
                ),
            },
        )
    }
}

/// The mathematical value of an encoder's result.
pub open spec fn encoded_view(result: Result<Envelope, EncodeError>) -> Result<
    EnvelopeView,
    EncodeError,
> {
    match result {
        Ok(envelope) => Ok(envelope@),
        Err(e) => Err(e),
    }
}

/// Builds the broadcast envelope for `data` and the subject it goes to.
///
/// Fails with [`EncodeError::PayloadTooLarge`] exactly where the data is
/// longer than [`base64_input_limit`].
pub fn broadcast(
    event_type: CentrifugoEventType,
    chat_id: &str,
    data: &[u8],
    namespace: &str,
    subject: &str,
) -> (envelope: Result<Envelope, EncodeError>)
    ensures
        encoded_view(envelope) == broadcast_envelope(
            event_type,
            chat_id@,
            data@,
            namespace@,
            subject@,
        ),
{
    if data.len() > (isize::MAX as usize) / 4 * 3 {
        return Err(EncodeError::PayloadTooLarge);
    }
    let mut channel = String::from_str(namespace);
    channel.append(":");
    channel.append(chat_id);
    let mut channels: Vec<String> = Vec::new();
    channels.push(channel);
    let message = CentrifugoMessage {
        method: CentrifugoMethod::Broadcast,
        payload: CentrifugoPayload { channels, event_type, data: base64_standard(data) },
    };
    proof {
        assert(message@.payload.channels == seq![channel_name(namespace@, chat_id@)]);
    }
    let payload = encode_message(&message);
    let mut destination = String::from_str(subject);
    destination.append(".");
    destination.append(namespace);
    destination.append(".");
    destination.append(chat_id);
    Ok(Envelope { destination, payload })
}

} // verus!
