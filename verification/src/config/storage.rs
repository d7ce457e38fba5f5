//! Where the relay finds its outbox.

use vstd::prelude::*;

verus! {

/// The relay's settings for the database.
#[derive(Debug, Clone, PartialEq, Eq)]
pub struct StorageConfig {
    /// The connection string of the database server.
    pub database_url: String,
    /// The database that is used where the connection string names none.
    pub database_name: String,
    /// The collection that holds the outbox of messages.
    pub messages_outbox_collection_name: String,
}

} // verus!
