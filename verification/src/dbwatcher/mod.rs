//! The watcher of one outbox table.
//!
//! A watcher is a state machine that its host drives. The host reports
//! [`Event::Started`] to a new watcher and carries out the [`Action`] that
//! comes back: it opens the subscription, scans the table, publishes an
//! envelope, deletes a row or waits for a notification, and reports how that
//! went as the next event. It may report [`Event::Cancelled`] at any time;
//! the watcher then asks for nothing new, and ends once the answer that is
//! still owed has come in. [`Action::Stop`] ends the watcher's task.
//!
//! - [`model`] holds the machine as mathematics, [`watcher`] the machine
//!   that runs, [`laws`] what is proved of every run and [`replay_laws`]
//!   what is proved of every replay.
//! - [`order`] brings a backlog into the order of its replay, and
//!   [`order_laws`] says what holds of that order.

pub mod event;
pub mod laws;
pub mod model;
pub mod order;
pub mod order_laws;
pub mod outcome;
pub mod replay_laws;
pub mod watcher;

pub use event::{Action, Event, Notification, Operation, ScanItem};
pub use model::{Phase, Stage};
pub use outcome::{WatcherError, WatcherOutcome};
pub use watcher::{DatabaseWatcher, Delivery, Skipped};
