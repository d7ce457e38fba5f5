//! Envelopes for the changes of a chat's structure.

use vstd::prelude::*;
use crate::publisher::broadcast::{broadcast, broadcast_envelope, encoded_view};
use crate::publisher::{EncodeError, Envelope};
use crate::types::centrifugo::CentrifugoEventType;

verus! {

/// Builds the envelope that announces a change to the subscribers of a chat,
/// and the subject it goes to.
pub fn art_change_envelope(chat_id: &str, data: &[u8], namespace: &str, subject: &str) -> (envelope:
    Result<Envelope, EncodeError>)
    ensures
        encoded_view(envelope) == broadcast_envelope(
            CentrifugoEventType::GenericChange,
            chat_id@,
            data@,
            namespace@,
            subject@,
        ),
{
    broadcast(CentrifugoEventType::GenericChange, chat_id, data, namespace, subject)
}

} // verus!
