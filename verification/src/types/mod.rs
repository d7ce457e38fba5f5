//! The data that travels through the relay.

pub mod centrifugo;
pub mod chat_id;
pub mod messages;
pub mod outbox;

pub use centrifugo::{CentrifugoEventType, CentrifugoMessage, CentrifugoMethod, CentrifugoPayload};
pub use messages::Message;
pub use outbox::{IdentityKey, MessageOutbox, Timestamp};
