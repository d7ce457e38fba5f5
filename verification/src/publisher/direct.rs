//! The direct relay: the payload goes out as it is.

use vstd::prelude::*;
use vstd::slice::slice_to_vec;
use vstd::string::StringExecFns;
use crate::publisher::{Envelope, EnvelopeView};
use crate::types::messages::Message;

verus! {

/// The subject that a chat's messages are relayed to: `<subject>.<chat_id>`.
pub open spec fn direct_subject(subject: Seq<char>, chat_id: Seq<char>) -> Seq<char> {
    subject + "."@ + chat_id
}

/// What is handed to the bus for these bytes.
pub open spec fn direct(chat_id: Seq<char>, data: Seq<u8>, subject: Seq<char>) -> EnvelopeView {
    EnvelopeView { destination: direct_subject(subject, chat_id), payload: data }
}

/// Builds the envelope that relays `data` unchanged to the subject of the
/// chat.
pub fn direct_relay(chat_id: &str, data: &[u8], subject: &str) -> (envelope: Envelope)
    ensures
        envelope@ == direct(chat_id@, data@, subject@),
{
    let mut destination = String::from_str(subject);
    destination.append(".");
    destination.append(chat_id);
    Envelope { destination, payload: slice_to_vec(data) }
}

/// Builds the envelope that relays `message` unchanged, and the subject it
/// goes to.
pub fn direct_envelope(message: &Message, subject: &str) -> (envelope: Envelope)
    ensures
        envelope@ == direct(message@.chat_id, message@.data, subject@),
{
    direct_relay(message.chat_id.as_str(), message.data.as_slice(), subject)
}

} // verus!
