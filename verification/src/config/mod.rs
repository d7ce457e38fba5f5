//! The relay's settings.

pub mod centrifugo;
pub mod nats;
pub mod storage;

pub use centrifugo::CentrifugoConfig;
pub use nats::NatsConfig;
pub use storage::StorageConfig;
