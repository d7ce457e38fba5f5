//! Where the relay publishes.

use vstd::prelude::*;

verus! {

/// The relay's settings for the message bus.
#[derive(Debug, Clone, PartialEq, Eq)]
pub struct NatsConfig {
    /// The address of the bus.
    pub url: String,
    /// The first part of every subject that the relay publishes to.
    pub subject: String,
    /// The namespace of the channels on which subscribers follow messages.
    pub messages_namespace: String,
}

} // verus!
