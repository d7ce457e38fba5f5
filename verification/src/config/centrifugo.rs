//! Where the subscribers' server is reached.

use vstd::prelude::*;

verus! {

/// The relay's settings for the server that the subscribers are connected
/// to.
#[derive(Debug, Clone, PartialEq, Eq)]
pub struct CentrifugoConfig {
    /// The address of the queue in front of the server.
    pub amqp_url: String,
    /// The address of the server.
    pub centrifugo_url: String,
    /// The key that the server's interface asks for.
    pub centrifugo_api_key: String,
}

} // verus!
