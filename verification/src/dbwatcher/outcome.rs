//! How a watcher ends.

use vstd::prelude::*;

verus! {

/// Why a watcher gave up.
#[derive(Debug, Clone, Copy, PartialEq, Eq, Structural)]
pub enum WatcherError {
    /// The live subscription could not be opened.
    Subscribe,
    /// The backlog could not be read at all.
    Scan,
    /// The bus refused or lost a record.
    Publish,
    /// The table refused to remove a record that the bus had confirmed.
    Delete,
    /// An event arrived that answers nothing the watcher had asked for.
    Protocol,
}

/// The result with which a watcher stops.
#[derive(Debug, Clone, Copy, PartialEq, Eq, Structural)]
pub enum WatcherOutcome {
    /// The watcher was cancelled and returned cleanly.
    Completed,
    /// The live subscription ended by itself.
    StreamClosed,
    /// The watcher met an error it does not recover from.
    Failed(WatcherError),
}

impl WatcherOutcome {
    /// Whether the watcher ended in any way but a clean return.
    pub open spec fn is_failure(self) -> bool {
        self != WatcherOutcome::Completed
    }

    /// Whether the watcher ended in any way but a clean return.
    pub fn failed(&self) -> (failure: bool)
        ensures
            failure == self.is_failure(),
    {
        match self {
            WatcherOutcome::Completed => false,
            WatcherOutcome::StreamClosed => true,
            WatcherOutcome::Failed(_) => true,
        }
    }
}

} // verus!
