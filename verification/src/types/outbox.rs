//! One row of an outbox table, and the key by which it is found again.

use vstd::prelude::*;
use vstd::string::StringExecFns;
use crate::publisher::codec::{base64_input_limit, base64_standard, base64_text};
use crate::text::{decimal, decimal_text, show_utc, utc_text};
use crate::types::chat_id::{read_uuid, show_uuid, uuid_bytes, uuid_text};

verus! {

/// A point in time: whole seconds since the Unix epoch, and the nanoseconds
/// into that second.
#[derive(Debug, Clone, Copy, PartialEq, Eq, Structural)]
pub struct Timestamp {
    pub seconds: i64,
    pub nanos: u32,
}

/// What identifies a row of an outbox table. The row is deleted by it.
#[derive(Debug, Clone, PartialEq, Eq)]
pub struct IdentityKey {
    /// The chat that the row belongs to.
    pub chat_id: String,
    /// The row's number within its chat.
    pub sequence_number: i64,
    /// The generation of the chat in which the number was given out, where
    /// the table keeps one.
    pub epoch: Option<i64>,
}

/// The mathematical value of an [`IdentityKey`].
pub struct IdentityKeyView {
    pub chat_id: Seq<char>,
    pub sequence_number: i64,
    pub epoch: Option<i64>,
}

impl View for IdentityKey {
    type V = IdentityKeyView;

    open spec fn view(&self) -> IdentityKeyView {
        IdentityKeyView {
            chat_id: self.chat_id@,
            sequence_number: self.sequence_number,
            epoch: self.epoch,
        }
    }
}

impl IdentityKey {
    /// The chat id as the 16 bytes of a UUID, for a table that stores it
    /// so; `None` where the chat id is not a UUID.
    pub fn chat_uuid(&self) -> (bytes: Option<[u8; 16]>)
        ensures
            match bytes {
                Some(found) => uuid_bytes(self@.chat_id) == Some(found@),
                None => uuid_bytes(self@.chat_id) is None,
            },
    {
        read_uuid(self.chat_id.as_str())
    }
}

/// One row of an outbox table: a message that waits to be relayed.
#[derive(Debug, Clone, PartialEq, Eq)]
pub struct MessageOutbox {
    /// The message body.
    pub content: Vec<u8>,
    /// When the row was written. Rows are replayed in the order of this time.
    pub created_at: Timestamp,
    /// The row's number within its chat.
    pub sequence_number: i64,
    /// The generation of the chat in which the number was given out, where
    /// the table keeps one.
    pub epoch: Option<i64>,
    /// The chat that the message goes to.
    pub chat_id: String,
}

/// The mathematical value of a [`MessageOutbox`].
pub struct MessageOutboxView {
    pub content: Seq<u8>,
    pub created_at: Timestamp,
    pub sequence_number: i64,
    pub epoch: Option<i64>,
    pub chat_id: Seq<char>,
}

impl MessageOutboxView {
    /// The key that identifies the row.
    pub open spec fn key(self) -> IdentityKeyView {
        IdentityKeyView {
            chat_id: self.chat_id,
            sequence_number: self.sequence_number,
            epoch: self.epoch,
        }
    }
}

impl View for MessageOutbox {
    type V = MessageOutboxView;

    open spec fn view(&self) -> MessageOutboxView {
        MessageOutboxView {
            content: self.content@,
            created_at: self.created_at,
            sequence_number: self.sequence_number,
            epoch: self.epoch,
            chat_id: self.chat_id@,
        }
    }
}

/// The content of a row as it is shown: in base64, or a note where it is
/// too long for that.
pub open spec fn content_text(content: Seq<u8>) -> Seq<char> {
    if content.len() <= base64_input_limit() {
        base64_text(content)
    } else {
        "(too long)"@
    }
}

/// The creation time of a row as it is shown: the date in UTC, or a note
/// where the time is outside the calendar.
pub open spec fn time_text(created_at: Timestamp) -> Seq<char> {
    match utc_text(created_at.seconds, created_at.nanos) {
        Some(shown) => shown,
        None => "(out of range)"@,
    }
}

/// The epoch of a row as it is shown.
pub open spec fn epoch_text(epoch: Option<i64>) -> Seq<char> {
    match epoch {
        Some(number) => decimal_text(number as int),
        None => "none"@,
    }
}

/// A row as it is shown in a line of a log.
pub open spec fn description(row: MessageOutboxView) -> Seq<char> {
    "{ content: "@ + content_text(row.content) + ", created_at: "@ + time_text(row.created_at)
        + ", sequence_number: "@ + decimal_text(row.sequence_number as int) + ", epoch: "@
        + epoch_text(row.epoch) + ", chat_id: "@ + row.chat_id + " }"@
}

impl MessageOutbox {
    /// The row as the relay sees it, from what a table stores that keeps the
    /// chat id as the 16 bytes of a UUID and gives every row an epoch.
    pub fn from_stored(
        content: Vec<u8>,
        created_at: Timestamp,
        sequence_number: i64,
        epoch: i64,
        chat: &[u8; 16],
    ) -> (row: MessageOutbox)
        ensures
            row@ == (MessageOutboxView {
                content: content@,
                created_at,
                sequence_number,
                epoch: Some(epoch),
                chat_id: uuid_text(chat@),
            }),
    {
        MessageOutbox {
            content,
            created_at,
            sequence_number,
            epoch: Some(epoch),
            chat_id: show_uuid(chat),
        }
    }

    /// Shows the row in one line: its content in base64, its creation time
    /// as a date in UTC, its numbers in decimal.
    pub fn describe(&self) -> (line: String)
        ensures
            line@ == description(self@),
    {
        let mut line = String::from_str("{ content: ");
        if self.content.len() <= (isize::MAX as usize) / 4 * 3 {
            line.append(base64_standard(self.content.as_slice()).as_str());
        } else {
            line.append("(too long)");
        }
        line.append(", created_at: ");
        match show_utc(self.created_at.seconds, self.created_at.nanos) {
            Some(shown) => {
                line.append(shown.as_str());
            },
            None => {
                line.append("(out of range)");
            },
        }
        line.append(", sequence_number: ");
        line.append(decimal(self.sequence_number).as_str());
        line.append(", epoch: ");
        match self.epoch {
            Some(number) => {
                line.append(decimal(number).as_str());
            },
            None => {
                line.append("none");
            },
        }
        line.append(", chat_id: ");
        line.append(self.chat_id.as_str());
        line.append(" }");
        line
    }

    /// The key that identifies the row.
    pub fn key(&self) -> (key: IdentityKey)
        ensures
            key@ == self@.key(),
    {
        IdentityKey {
            chat_id: self.chat_id.clone(),
            sequence_number: self.sequence_number,
            epoch: self.epoch,
        }
    }

    /// A copy of the row.
    pub fn duplicate(&self) -> (copy: MessageOutbox)
        ensures
            copy@ == self@,
    {
        MessageOutbox {
            content: self.content.clone(),
            created_at: self.created_at,
            sequence_number: self.sequence_number,
            epoch: self.epoch,
            chat_id: self.chat_id.clone(),
        }
    }
}

} // verus!
