//! A transactional-outbox relay: rows of a database outbox table are encoded
//! into envelopes, published to a message bus, and deleted once the bus has
//! confirmed them.
//!
//! The crate holds the relay's decisions as pure state machines with proved
//! contracts. Whoever embeds it performs the input and output that the
//! machines ask for and reports back what happened.

pub mod config;
pub mod dbwatcher;
pub mod logging;
pub mod orchestrator;
pub mod publisher;
pub mod text;
pub mod types;
