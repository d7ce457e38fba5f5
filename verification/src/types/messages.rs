//! A message that is relayed as it is.

use vstd::prelude::*;

verus! {

/// A message for one chat: the bytes go out unchanged.
#[derive(Debug, Clone, PartialEq, Eq)]
pub struct Message {
    /// The chat that the message goes to.
    pub chat_id: String,
    /// The message body.
    pub data: Vec<u8>,
}

/// The mathematical value of a [`Message`].
pub struct MessageView {
    pub chat_id: Seq<char>,
    pub data: Seq<u8>,
}

impl View for Message {
    type V = MessageView;

    open spec fn view(&self) -> MessageView {
        MessageView { chat_id: self.chat_id@, data: self.data@ }
    }
}

} // verus!
