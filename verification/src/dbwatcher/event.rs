//! What a watcher is told, and what it asks for.

use vstd::prelude::*;
use crate::dbwatcher::outcome::WatcherOutcome;
use crate::publisher::{Envelope, EnvelopeView};
use crate::types::outbox::{IdentityKey, IdentityKeyView, MessageOutbox, MessageOutboxView};

verus! {

/// What happened to a row of the table, as its change notification says.
#[derive(Debug, Clone, Copy, PartialEq, Eq, Structural)]
pub enum Operation {
    Insert,
    Update,
    Replace,
    Delete,
    /// Anything else that the table reports.
    Other,
}

/// One notification from the live subscription.
#[derive(Debug, Clone, PartialEq, Eq)]
pub struct Notification {
    /// What happened to the row.
    pub operation: Operation,
    /// The row as it stands after the change, where the notification
    /// carries it.
    pub document: Option<MessageOutbox>,
}

/// The mathematical value of a [`Notification`].
pub struct NotificationView {
    pub operation: Operation,
    pub document: Option<MessageOutboxView>,
}

impl View for Notification {
    type V = NotificationView;

    open spec fn view(&self) -> NotificationView {
        NotificationView {
            operation: self.operation,
            document: match self.document {
                Some(row) => Some(row@),
                None => None,
            },
        }
    }
}

/// One item of a backlog scan.
#[derive(Debug, Clone, PartialEq, Eq)]
pub enum ScanItem {
    /// A row of the table.
    Row(MessageOutbox),
    /// A row that could not be read or decoded.
    Unreadable,
}

/// The mathematical value of a [`ScanItem`].
pub enum ScanItemView {
    Row(MessageOutboxView),
    Unreadable,
}

impl View for ScanItem {
    type V = ScanItemView;

    open spec fn view(&self) -> ScanItemView {
        match self {
            ScanItem::Row(row) => ScanItemView::Row(row@),
            ScanItem::Unreadable => ScanItemView::Unreadable,
        }
    }
}

/// The mathematical values of the items of a scan.
pub open spec fn scan_view(items: Seq<ScanItem>) -> Seq<ScanItemView> {
    Seq::new(items.len(), |i: int| items[i]@)
}

/// What the host reports to a watcher.
#[derive(Debug, Clone, PartialEq, Eq)]
pub enum Event {
    /// The watcher's task has started.
    Started,
    /// The live subscription is open.
    Subscribed,
    /// The live subscription could not be opened.
    SubscribeFailed,
    /// The backlog scan has ended; these are its items, in the order in
    /// which the table handed them over.
    BacklogLoaded(Vec<ScanItem>),
    /// The backlog scan could not be run.
    ScanFailed,
    /// The bus has confirmed the envelope.
    Published,
    /// The bus has not taken the envelope.
    PublishFailed,
    /// The table has removed the row.
    Deleted,
    /// The table has not removed the row.
    DeleteFailed,
    /// The live subscription has delivered a notification.
    Notified(Notification),
    /// The live subscription has delivered an error in place of a
    /// notification.
    StreamError,
    /// The live subscription has ended.
    StreamClosed,
    /// The shared cancellation signal is up.
    Cancelled,
}

/// The mathematical value of an [`Event`].
pub enum EventView {
    Started,
    Subscribed,
    SubscribeFailed,
    BacklogLoaded(Seq<ScanItemView>),
    ScanFailed,
    Published,
    PublishFailed,
    Deleted,
    DeleteFailed,
    Notified(NotificationView),
    StreamError,
    StreamClosed,
    Cancelled,
}

impl View for Event {
    type V = EventView;

    open spec fn view(&self) -> EventView {
        match self {
            Event::Started => EventView::Started,
            Event::Subscribed => EventView::Subscribed,
            Event::SubscribeFailed => EventView::SubscribeFailed,
            Event::BacklogLoaded(items) => EventView::BacklogLoaded(scan_view(items@)),
            Event::ScanFailed => EventView::ScanFailed,
            Event::Published => EventView::Published,
            Event::PublishFailed => EventView::PublishFailed,
            Event::Deleted => EventView::Deleted,
            Event::DeleteFailed => EventView::DeleteFailed,
            Event::Notified(notification) => EventView::Notified(notification@),
            Event::StreamError => EventView::StreamError,
            Event::StreamClosed => EventView::StreamClosed,
            Event::Cancelled => EventView::Cancelled,
        }
    }
}

/// What a watcher asks its host to do. The host answers each action but
/// [`Action::Wait`] and [`Action::Stop`] with the event that tells how it
/// went.
#[derive(Debug, Clone, PartialEq, Eq)]
pub enum Action {
    /// Open the live subscription on the table.
    Subscribe,
    /// Scan the table and hand over every row.
    ScanBacklog,
    /// Publish the envelope to the bus.
    Publish(Envelope),
    /// Delete the row with this key from the table.
    Delete(IdentityKey),
    /// Wait for the next notification of the live subscription, or for the
    /// cancellation signal.
    AwaitNotification,
    /// Go on with what was asked for last: its answer is still owed.
    Wait,
    /// End the watcher's task with this outcome.
    Stop(WatcherOutcome),
}

/// The mathematical value of an [`Action`].
pub enum ActionView {
    Subscribe,
    ScanBacklog,
    Publish(EnvelopeView),
    Delete(IdentityKeyView),
    AwaitNotification,
    Wait,
    Stop(WatcherOutcome),
}

impl View for Action {
    type V = ActionView;

    open spec fn view(&self) -> ActionView {
        match self {
            Action::Subscribe => ActionView::Subscribe,
            Action::ScanBacklog => ActionView::ScanBacklog,
            Action::Publish(envelope) => ActionView::Publish(envelope@),
            Action::Delete(key) => ActionView::Delete(key@),
            Action::AwaitNotification => ActionView::AwaitNotification,
            Action::Wait => ActionView::Wait,
            Action::Stop(outcome) => ActionView::Stop(*outcome),
        }
    }
}

} // verus!
