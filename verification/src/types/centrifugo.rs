//! The broadcast envelope understood by the messaging bus.

use vstd::prelude::*;

verus! {

/// How the bus is asked to deliver an envelope.
#[derive(Debug, Clone, Copy, PartialEq, Eq, Structural)]
pub enum CentrifugoMethod {
    Publish,
    Broadcast,
}

impl CentrifugoMethod {
    /// The name of the method on the wire.
    pub open spec fn wire_name(self) -> Seq<char> {
        match self {
            CentrifugoMethod::Publish => "publish"@,
            CentrifugoMethod::Broadcast => "broadcast"@,
        }
    }

    /// The name of the method on the wire.
    pub fn as_str(&self) -> (name: &'static str)
        ensures
            name@ == self.wire_name(),
    {
        match self {
            CentrifugoMethod::Publish => "publish",
            CentrifugoMethod::Broadcast => "broadcast",
        }
    }
}

/// What an envelope announces to its subscribers.
#[derive(Debug, Clone, Copy, PartialEq, Eq, Structural)]
pub enum CentrifugoEventType {
    Message,
    UserAdded,
    UserRemoved,
    GenericChange,
}

impl CentrifugoEventType {
    /// The name of the event type on the wire.
    pub open spec fn wire_name(self) -> Seq<char> {
        match self {
            CentrifugoEventType::Message => "message"@,
            CentrifugoEventType::UserAdded => "user_added"@,
            CentrifugoEventType::UserRemoved => "user_removed"@,
            CentrifugoEventType::GenericChange => "generic_change"@,
        }
    }

    /// The name of the event type on the wire.
    pub fn as_str(&self) -> (name: &'static str)
        ensures
            name@ == self.wire_name(),
    {
        match self {
            CentrifugoEventType::Message => "message",
            CentrifugoEventType::UserAdded => "user_added",
            CentrifugoEventType::UserRemoved => "user_removed",
            CentrifugoEventType::GenericChange => "generic_change",
        }
    }
}

/// The body of a broadcast envelope.
#[derive(Debug, Clone, PartialEq, Eq)]
pub struct CentrifugoPayload {
    /// The channels whose subscribers receive the envelope.
    pub channels: Vec<String>,
    /// What the envelope announces.
    pub event_type: CentrifugoEventType,
    /// The message body, as text.
    pub data: String,
}

/// The mathematical value of a [`CentrifugoPayload`].
pub struct CentrifugoPayloadView {
    pub channels: Seq<Seq<char>>,
    pub event_type: CentrifugoEventType,
    pub data: Seq<char>,
}

impl View for CentrifugoPayload {
    type V = CentrifugoPayloadView;

    open spec fn view(&self) -> CentrifugoPayloadView {
        CentrifugoPayloadView {
            channels: Seq::new(self.channels@.len(), |i: int| self.channels@[i]@),
            event_type: self.event_type,
            data: self.data@,
        }
    }
}

/// A broadcast envelope: a delivery method and the body it delivers.
#[derive(Debug, Clone, PartialEq, Eq)]
pub struct CentrifugoMessage {
    /// How the bus is asked to deliver the body.
    pub method: CentrifugoMethod,
    /// What is delivered.
    pub payload: CentrifugoPayload,
}

/// The mathematical value of a [`CentrifugoMessage`].
pub struct CentrifugoMessageView {
    pub method: CentrifugoMethod,
    pub payload: CentrifugoPayloadView,
}

impl View for CentrifugoMessage {
    type V = CentrifugoMessageView;

    open spec fn view(&self) -> CentrifugoMessageView {
        CentrifugoMessageView { method: self.method, payload: self.payload@ }
    }
}

} // verus!
