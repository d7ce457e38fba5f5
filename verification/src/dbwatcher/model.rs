//! The watcher as a mathematical state machine.
//!
//! A watcher replays the backlog of its table, then tails the table's live
//! subscription. It opens the subscription before it scans the backlog, so
//! that no row falls between the two; a row that is seen by both is
//! recognised in the subscription by its identity key and creation time, and
//! is not delivered twice.

use vstd::prelude::*;
use crate::dbwatcher::event::{ActionView, EventView, NotificationView, Operation, ScanItemView};
use crate::dbwatcher::order::replay_order;
use crate::dbwatcher::outcome::{WatcherError, WatcherOutcome};
use crate::publisher::{record_envelope, EncodeError, Encoder};
use crate::types::outbox::{IdentityKeyView, MessageOutboxView, Timestamp};

verus! {

/// Where a watcher stands, as seen from outside.
#[derive(Debug, Clone, Copy, PartialEq, Eq, Structural)]
pub enum Phase {
    /// The watcher prepares or replays the backlog.
    ReplayingBacklog,
    /// The watcher follows the live subscription.
    TailingLive,
    /// The cancellation signal is up and the watcher finishes what is in
    /// flight.
    Draining,
    /// The watcher has ended.
    Stopped,
}

/// What a watcher is waiting for.
#[derive(Debug, Clone, Copy, PartialEq, Eq, Structural)]
pub enum Stage {
    /// Nothing has been asked for yet.
    Created,
    /// The live subscription is being opened.
    Subscribing,
    /// The backlog is being scanned.
    Scanning,
    /// An envelope is with the bus.
    Publishing,
    /// A delivered row is being deleted.
    Deleting,
    /// The next notification is awaited.
    Listening,
    /// The watcher has ended with this outcome.
    Stopped(WatcherOutcome),
}

/// The mathematical value of the note that a watcher keeps of a record in
/// flight or delivered: its identity key and its creation time.
pub struct DeliveryView {
    pub key: IdentityKeyView,
    pub created_at: Timestamp,
}

/// The mathematical value of the note that a watcher keeps of a record
/// that it has passed over: its identity key, and why it has no envelope.
pub struct SkippedView {
    pub key: IdentityKeyView,
    pub reason: EncodeError,
}

/// The note that is kept of `record`.
pub open spec fn delivery_of(record: MessageOutboxView) -> DeliveryView {
    DeliveryView { key: record.key(), created_at: record.created_at }
}

/// The rows among the items of a scan, in the order of the scan.
pub open spec fn readable(items: Seq<ScanItemView>) -> Seq<MessageOutboxView>
    decreases items.len(),
{
    if items.len() == 0 {
        Seq::<MessageOutboxView>::empty()
    } else {
        match items.last() {
            ScanItemView::Row(row) => readable(items.drop_last()).push(row),
            ScanItemView::Unreadable => readable(items.drop_last()),
        }
    }
}

/// The place of the first note in `notes` that equals `note`; the length of
/// `notes` where there is none.
pub open spec fn position(notes: Seq<DeliveryView>, note: DeliveryView) -> int
    decreases notes.len(),
{
    if notes.len() == 0 {
        0
    } else if notes[0] == note {
        0
    } else {
        1 + position(notes.skip(1), note)
    }
}

/// The mathematical value of a watcher.
pub struct WatcherView {
    /// How the table's records are turned into envelopes.
    pub encoder: Encoder,
    /// The namespace of the subscribers' channels.
    pub namespace: Seq<char>,
    /// The first part of every subject.
    pub subject: Seq<char>,
    /// What the watcher is waiting for.
    pub stage: Stage,
    /// Whether the cancellation signal has been seen.
    pub draining: bool,
    /// Whether the backlog has been replayed to its end.
    pub tailing: bool,
    /// The record that is with the bus or is being deleted.
    pub in_flight: Option<DeliveryView>,
    /// The rows of the backlog that have not been attempted yet, in the
    /// order of their replay.
    pub pending: Seq<MessageOutboxView>,
    /// The records that the replay has delivered and that the live
    /// subscription has not shown since.
    pub replayed: Seq<DeliveryView>,
    /// The records that were passed over because they have no envelope, and
    /// that the host has not been told of yet.
    pub skipped: Seq<SkippedView>,
}

impl WatcherView {
    /// The state in which a watcher begins.
    pub open spec fn initial(encoder: Encoder, namespace: Seq<char>, subject: Seq<char>) -> WatcherView {
        WatcherView {
            encoder,
            namespace,
            subject,
            stage: Stage::Created,
            draining: false,
            tailing: false,
            in_flight: None,
            pending: Seq::<MessageOutboxView>::empty(),
            replayed: Seq::<DeliveryView>::empty(),
            skipped: Seq::<SkippedView>::empty(),
        }
    }

    /// Where the watcher stands.
    pub open spec fn phase(self) -> Phase {
        if self.stage is Stopped {
            Phase::Stopped
        } else if self.draining {
            Phase::Draining
        } else if self.tailing {
            Phase::TailingLive
        } else {
            Phase::ReplayingBacklog
        }
    }

    /// The watcher ends with `outcome`.
    pub open spec fn stop(self, outcome: WatcherOutcome) -> (WatcherView, ActionView) {
        (
            WatcherView { stage: Stage::Stopped(outcome), in_flight: None, ..self },
            ActionView::Stop(outcome),
        )
    }

    /// The watcher has seen the cancellation signal while an answer is owed:
    /// it goes on waiting for the answer.
    pub open spec fn drain(self) -> (WatcherView, ActionView) {
        (WatcherView { draining: true, ..self }, ActionView::Wait)
    }

    /// The watcher turns to the live subscription.
    pub open spec fn listen(self) -> (WatcherView, ActionView) {
        (
            WatcherView { stage: Stage::Listening, tailing: true, in_flight: None, ..self },
            ActionView::AwaitNotification,
        )
    }

    /// The watcher hands `record` to the bus where it has an envelope.
    pub open spec fn attempt(self, record: MessageOutboxView) -> Result<
        (WatcherView, ActionView),
        EncodeError,
    > {
        match record_envelope(self.encoder, record, self.namespace, self.subject) {
            Ok(envelope) => Ok(
                (
                    WatcherView {
                        stage: Stage::Publishing,
                        in_flight: Some(delivery_of(record)),
                        ..self
                    },
                    ActionView::Publish(envelope),
                ),
            ),
            Err(reason) => Err(reason),
        }
    }

    /// The watcher passes `record` over and keeps a note of it: the record
    /// stays in the table.
    pub open spec fn pass_over(self, record: MessageOutboxView, reason: EncodeError) -> WatcherView {
        WatcherView {
            skipped: self.skipped.push(SkippedView { key: record.key(), reason }),
            ..self
        }
    }

    /// The replay goes on: the first pending row that has an envelope is
    /// handed to the bus, the rows before it are passed over. Where no row
    /// is left, the watcher turns to the live subscription.
    pub open spec fn advance(self) -> (WatcherView, ActionView)
        decreases self.pending.len(),
    {
        if self.pending.len() == 0 {
            self.listen()
        } else {
            let rest = WatcherView { pending: self.pending.skip(1), ..self };
            match rest.attempt(self.pending[0]) {
                Ok(step) => step,
                Err(reason) => rest.pass_over(self.pending[0], reason).advance(),
            }
        }
    }

    /// The watcher takes in a notification of the live subscription. Only an
    /// insert that carries its row is delivered, and only where the replay
    /// has not delivered the same row already.
    pub open spec fn notified(self, notification: NotificationView) -> (WatcherView, ActionView) {
        if notification.operation != Operation::Insert {
            (self, ActionView::AwaitNotification)
        } else {
            match notification.document {
                None => (self, ActionView::AwaitNotification),
                Some(record) => {
                    let at = position(self.replayed, delivery_of(record));
                    if at < self.replayed.len() {
                        (
                            WatcherView { replayed: self.replayed.remove(at), ..self },
                            ActionView::AwaitNotification,
                        )
                    } else {
                        match self.attempt(record) {
                            Ok(step) => step,
                            Err(reason) => (
                                self.pass_over(record, reason),
                                ActionView::AwaitNotification,
                            ),
                        }
                    }
                },
            }
        }
    }

    /// The row in flight has been deleted: the watcher goes on with what its
    /// phase asks for.
    pub open spec fn delivered(self, note: DeliveryView) -> (WatcherView, ActionView) {
        if self.draining {
            self.stop(WatcherOutcome::Completed)
        } else if self.tailing {
            self.listen()
        } else {
            WatcherView { replayed: self.replayed.push(note), in_flight: None, ..self }.advance()
        }
    }

    /// The state that follows `self` on `event`, and the action handed out.
    pub open spec fn next(self, event: EventView) -> (WatcherView, ActionView) {
        match (self.stage, event) {
            (Stage::Stopped(outcome), _) => (self, ActionView::Stop(outcome)),
            (Stage::Created, EventView::Started) => (
                WatcherView { stage: Stage::Subscribing, ..self },
                ActionView::Subscribe,
            ),
            (Stage::Created, EventView::Cancelled) => self.stop(WatcherOutcome::Completed),
            (Stage::Listening, EventView::Cancelled) => self.stop(WatcherOutcome::Completed),
            (_, EventView::Cancelled) => self.drain(),
            (Stage::Subscribing, EventView::Subscribed) => if self.draining {
                self.stop(WatcherOutcome::Completed)
            } else {
                (WatcherView { stage: Stage::Scanning, ..self }, ActionView::ScanBacklog)
            },
            (Stage::Subscribing, EventView::SubscribeFailed) => self.stop(
                WatcherOutcome::Failed(WatcherError::Subscribe),
            ),
            (Stage::Scanning, EventView::BacklogLoaded(items)) => if self.draining {
                self.stop(WatcherOutcome::Completed)
            } else {
                WatcherView { pending: replay_order(readable(items)), ..self }.advance()
            },
            (Stage::Scanning, EventView::ScanFailed) => self.stop(
                WatcherOutcome::Failed(WatcherError::Scan),
            ),
            (Stage::Publishing, EventView::Published) => match self.in_flight {
                Some(note) => (
                    WatcherView { stage: Stage::Deleting, ..self },
                    ActionView::Delete(note.key),
                ),
                None => self.stop(WatcherOutcome::Failed(WatcherError::Protocol)),
            },
            (Stage::Publishing, EventView::PublishFailed) => self.stop(
                WatcherOutcome::Failed(WatcherError::Publish),
            ),
            (Stage::Deleting, EventView::Deleted) => match self.in_flight {
                Some(note) => self.delivered(note),
                None => self.stop(WatcherOutcome::Failed(WatcherError::Protocol)),
            },
            (Stage::Deleting, EventView::DeleteFailed) => self.stop(
                WatcherOutcome::Failed(WatcherError::Delete),
            ),
            (Stage::Listening, EventView::Notified(notification)) => self.notified(notification),
            (Stage::Listening, EventView::StreamError) => (self, ActionView::AwaitNotification),
            (Stage::Listening, EventView::StreamClosed) => self.stop(WatcherOutcome::StreamClosed),
            _ => self.stop(WatcherOutcome::Failed(WatcherError::Protocol)),
        }
    }

    /// The actions handed out in answer to `events`, one after the other.
    pub open spec fn answers(self, events: Seq<EventView>) -> Seq<ActionView>
        decreases events.len(),
    {
        if events.len() == 0 {
            Seq::<ActionView>::empty()
        } else {
            seq![self.next(events[0]).1] + self.next(events[0]).0.answers(events.skip(1))
        }
    }

    /// The state reached once `events` have been taken in.
    pub open spec fn after(self, events: Seq<EventView>) -> WatcherView
        decreases events.len(),
    {
        if events.len() == 0 {
            self
        } else {
            self.next(events[0]).0.after(events.skip(1))
        }
    }
}

} // verus!
