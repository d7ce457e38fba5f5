//! The watcher that runs: the state machine of [`crate::dbwatcher::model`]
//! on real records.

use vstd::prelude::*;
use crate::config::nats::NatsConfig;
use crate::dbwatcher::event::{scan_view, Action, Event, Notification, Operation, ScanItem};
use crate::dbwatcher::model::{
    delivery_of,
    position,
    readable,
    DeliveryView,
    Phase,
    SkippedView,
    Stage,
    WatcherView,
};
use crate::dbwatcher::order::{replay_order, rows_view, sort_backlog};
use crate::dbwatcher::outcome::{WatcherError, WatcherOutcome};
use crate::publisher::{encode_record, EncodeError, Encoder};
use crate::types::outbox::{IdentityKey, MessageOutbox, MessageOutboxView, Timestamp};

verus! {

/// The note that a watcher keeps of a record in flight or delivered.
#[derive(Debug, Clone, PartialEq, Eq)]
pub struct Delivery {
    /// The key by which the record's row is deleted.
    pub key: IdentityKey,
    /// When the record's row was written.
    pub created_at: Timestamp,
}

impl View for Delivery {
    type V = DeliveryView;

    open spec fn view(&self) -> DeliveryView {
        DeliveryView { key: self.key@, created_at: self.created_at }
    }
}

impl Delivery {
    /// The note that is kept of `record`.
    pub fn of(record: &MessageOutbox) -> (note: Delivery)
        ensures
            note@ == delivery_of(record@),
    {
        Delivery { key: record.key(), created_at: record.created_at }
    }

    /// Whether two notes speak of the same row.
    pub fn same(&self, other: &Delivery) -> (same: bool)
        ensures
            same == (self@ == other@),
    {
        let epochs = match (self.key.epoch, other.key.epoch) {
            (None, None) => true,
            (Some(a), Some(b)) => a == b,
            _ => false,
        };
        epochs && self.key.sequence_number == other.key.sequence_number && self.created_at
            == other.created_at && self.key.chat_id == other.key.chat_id
    }
}

/// The note that a watcher keeps of a record that it has passed over.
#[derive(Debug, Clone, PartialEq, Eq)]
pub struct Skipped {
    /// The key of the record's row, which stays in the table.
    pub key: IdentityKey,
    /// Why the record has no envelope.
    pub reason: EncodeError,
}

impl View for Skipped {
    type V = SkippedView;

    open spec fn view(&self) -> SkippedView {
        SkippedView { key: self.key@, reason: self.reason }
    }
}

/// The mathematical values of a vector of passed-over records.
pub open spec fn skipped_view(notes: Seq<Skipped>) -> Seq<SkippedView> {
    Seq::new(notes.len(), |i: int| notes[i]@)
}

/// The mathematical values of a vector of notes.
pub open spec fn notes_view(notes: Seq<Delivery>) -> Seq<DeliveryView> {
    Seq::new(notes.len(), |i: int| notes[i]@)
}

/// The place of the first note in `notes` that equals `note`; the length of
/// `notes` where there is none.
pub fn find_note(notes: &Vec<Delivery>, note: &Delivery) -> (at: usize)
    ensures
        at == position(notes_view(notes@), note@),
        at <= notes@.len(),
{
    let ghost all = notes_view(notes@);
    let mut at: usize = 0;
    proof {
        assert(all.skip(0) == all);
    }
    while at < notes.len() && !notes[at].same(note)
        invariant
            at <= notes@.len(),
            all == notes_view(notes@),
            position(all, note@) == at + position(all.skip(at as int), note@),
        decreases notes@.len() - at,
    {
        proof {
            assert(all.skip(at as int).skip(1) == all.skip(at + 1));
        }
        at += 1;
    }
    at
}

/// The rows among the items of a scan, in the order of the scan.
pub fn rows_of(items: Vec<ScanItem>) -> (rows: Vec<MessageOutbox>)
    ensures
        rows_view(rows@) == readable(scan_view(items@)),
{
    let ghost all = scan_view(items@);
    let mut rows: Vec<MessageOutbox> = Vec::new();
    for item in it: items.into_iter()
        invariant
            it.seq() == items@,
            all == scan_view(items@),
            rows_view(rows@) == readable(all.subrange(0, it.index() as int)),
    {
        proof {
            let done = it.index() as int;
            assert(all.subrange(0, done + 1).drop_last() == all.subrange(0, done));
        }
        match item {
            ScanItem::Row(row) => {
                rows.push(row);
            },
            ScanItem::Unreadable => {},
        }
    }
    proof {
        assert(all.subrange(0, all.len() as int) == all);
    }
    rows
}

/// The watcher of one outbox table.
///
/// A watcher decides; it performs nothing. Its host reports what happened as
/// an [`Event`] and carries out the [`Action`] that [`DatabaseWatcher::step`]
/// hands back.
#[derive(Debug, Clone)]
pub struct DatabaseWatcher {
    encoder: Encoder,
    namespace: String,
    subject: String,
    stage: Stage,
    draining: bool,
    tailing: bool,
    in_flight: Option<Delivery>,
    backlog: Vec<MessageOutbox>,
    cursor: usize,
    replayed: Vec<Delivery>,
    skipped: Vec<Skipped>,
}

impl View for DatabaseWatcher {
    type V = WatcherView;

    closed spec fn view(&self) -> WatcherView {
        WatcherView {
            encoder: self.encoder,
            namespace: self.namespace@,
            subject: self.subject@,
            stage: self.stage,
            draining: self.draining,
            tailing: self.tailing,
            in_flight: match self.in_flight {
                Some(note) => Some(note@),
                None => None,
            },
            pending: if self.cursor <= self.backlog@.len() {
                rows_view(self.backlog@).skip(self.cursor as int)
            } else {
                Seq::<MessageOutboxView>::empty()
            },
            replayed: notes_view(self.replayed@),
            skipped: skipped_view(self.skipped@),
        }
    }
}

impl DatabaseWatcher {
    /// A watcher for a table whose records are encoded by `encoder`, for
    /// subscribers in `namespace`, with subjects that begin with `subject`.
    pub fn new(encoder: Encoder, namespace: String, subject: String) -> (watcher: DatabaseWatcher)
        ensures
            watcher@ == WatcherView::initial(encoder, namespace@, subject@),
    {
        let watcher = DatabaseWatcher {
            encoder,
            namespace,
            subject,
            stage: Stage::Created,
            draining: false,
            tailing: false,
            in_flight: None,
            backlog: Vec::new(),
            cursor: 0,
            replayed: Vec::new(),
            skipped: Vec::new(),
        };
        proof {
            assert(watcher@.pending == Seq::<MessageOutboxView>::empty());
            assert(watcher@.replayed == Seq::<DeliveryView>::empty());
            assert(watcher@.skipped == Seq::<SkippedView>::empty());
        }
        watcher
    }

    /// A watcher that publishes under the subject and for the namespace that
    /// the settings of the bus name.
    pub fn for_bus(encoder: Encoder, bus: &NatsConfig) -> (watcher: DatabaseWatcher)
        ensures
            watcher@ == WatcherView::initial(encoder, bus.messages_namespace@, bus.subject@),
    {
        DatabaseWatcher::new(encoder, bus.messages_namespace.clone(), bus.subject.clone())
    }

    /// Where the watcher stands.
    pub fn phase(&self) -> (phase: Phase)
        ensures
            phase == self@.phase(),
    {
        match self.stage {
            Stage::Stopped(_) => Phase::Stopped,
            _ => if self.draining {
                Phase::Draining
            } else if self.tailing {
                Phase::TailingLive
            } else {
                Phase::ReplayingBacklog
            },
        }
    }

    /// The outcome with which the watcher has ended, once it has.
    pub fn outcome(&self) -> (outcome: Option<WatcherOutcome>)
        ensures
            outcome == match self@.stage {
                Stage::Stopped(o) => Some(o),
                _ => None,
            },
    {
        match self.stage {
            Stage::Stopped(o) => Some(o),
            _ => None,
        }
    }

    /// Hands over the notes of the records that were passed over since the
    /// last call, oldest first, for the host to report. Their rows are still
    /// in the table.
    pub fn take_skipped(&mut self) -> (notes: Vec<Skipped>)
        ensures
            skipped_view(notes@) == old(self)@.skipped,
            final(self)@ == (WatcherView { skipped: Seq::<SkippedView>::empty(), ..old(self)@ }),
    {
        let mut notes: Vec<Skipped> = Vec::new();
        core::mem::swap(&mut notes, &mut self.skipped);
        proof {
            assert(skipped_view(self.skipped@) == Seq::<SkippedView>::empty());
        }
        notes
    }

    fn pass_over(&mut self, key: IdentityKey, reason: EncodeError)
        ensures
            final(self)@ == (WatcherView {
                skipped: old(self)@.skipped.push(SkippedView { key: key@, reason }),
                ..old(self)@
            }),
    {
        let ghost before = skipped_view(self.skipped@);
        let note = Skipped { key, reason };
        self.skipped.push(note);
        proof {
            assert(skipped_view(self.skipped@) == before.push(note@));
        }
    }

    fn stop(&mut self, outcome: WatcherOutcome) -> (action: Action)
        ensures
            (final(self)@, action@) == old(self)@.stop(outcome),
    {
        self.stage = Stage::Stopped(outcome);
        self.in_flight = None;
        Action::Stop(outcome)
    }

    fn drain(&mut self) -> (action: Action)
        ensures
            (final(self)@, action@) == old(self)@.drain(),
    {
        self.draining = true;
        Action::Wait
    }

    fn listen(&mut self) -> (action: Action)
        ensures
            (final(self)@, action@) == old(self)@.listen(),
    {
        self.stage = Stage::Listening;
        self.tailing = true;
        self.in_flight = None;
        Action::AwaitNotification
    }

    fn advance(&mut self) -> (action: Action)
        ensures
            (final(self)@, action@) == old(self)@.advance(),
    {
        loop
            invariant
                self@.advance() == old(self)@.advance(),
            decreases self@.pending.len(),
        {
            if self.cursor >= self.backlog.len() {
                return self.listen();
            }
            let ghost before = self@;
            let encoded = encode_record(
                self.encoder,
                &self.backlog[self.cursor],
                self.namespace.as_str(),
                self.subject.as_str(),
            );
            let note = Delivery::of(&self.backlog[self.cursor]);
            self.cursor += 1;
            proof {
                assert(self@.pending == before.pending.skip(1));
            }
            match encoded {
                Ok(envelope) => {
                    self.stage = Stage::Publishing;
                    self.in_flight = Some(note);
                    return Action::Publish(envelope);
                },
                Err(reason) => {
                    self.pass_over(note.key, reason);
                },
            }
        }
    }

    fn notified(&mut self, notification: Notification) -> (action: Action)
        ensures
            (final(self)@, action@) == old(self)@.notified(notification@),
    {
        match notification.operation {
            Operation::Insert => {},
            _ => {
                return Action::AwaitNotification;
            },
        }
        let record = match notification.document {
            Some(record) => record,
            None => {
                return Action::AwaitNotification;
            },
        };
        let note = Delivery::of(&record);
        let at = find_note(&self.replayed, &note);
        if at < self.replayed.len() {
            let ghost before = notes_view(self.replayed@);
            self.replayed.remove(at);
            proof {
                assert(notes_view(self.replayed@) == before.remove(at as int));
            }
            return Action::AwaitNotification;
        }
        match encode_record(
            self.encoder,
            &record,
            self.namespace.as_str(),
            self.subject.as_str(),
        ) {
            Ok(envelope) => {
                self.stage = Stage::Publishing;
                self.in_flight = Some(note);
                Action::Publish(envelope)
            },
            Err(reason) => {
                self.pass_over(note.key, reason);
                Action::AwaitNotification
            },
        }
    }

    fn delivered(&mut self, note: Delivery) -> (action: Action)
        ensures
            (final(self)@, action@) == old(self)@.delivered(note@),
    {
        if self.draining {
            self.stop(WatcherOutcome::Completed)
        } else if self.tailing {
            self.listen()
        } else {
            let ghost before = notes_view(self.replayed@);
            self.replayed.push(note);
            self.in_flight = None;
            proof {
                assert(notes_view(self.replayed@) == before.push(note@));
            }
            self.advance()
        }
    }

    fn load(&mut self, items: Vec<ScanItem>) -> (action: Action)
        ensures
            (final(self)@, action@) == (WatcherView {
                pending: replay_order(readable(scan_view(items@))),
                ..old(self)@
            }).advance(),
    {
        self.backlog = sort_backlog(rows_of(items));
        self.cursor = 0;
        proof {
            assert(rows_view(self.backlog@).skip(0) == rows_view(self.backlog@));
        }
        self.advance()
    }

    /// Takes in one event and says what the host does next.
    ///
    /// A row is deleted only in answer to [`Event::Published`] while its
    /// envelope is with the bus. An event that answers nothing the watcher
    /// has asked for ends it with [`WatcherError::Protocol`].
    pub fn step(&mut self, event: Event) -> (action: Action)
        ensures
            (final(self)@, action@) == old(self)@.next(event@),
    {
        if let Stage::Stopped(outcome) = self.stage {
            return Action::Stop(outcome);
        }
        match event {
            Event::Cancelled => match self.stage {
                Stage::Created => self.stop(WatcherOutcome::Completed),
                Stage::Listening => self.stop(WatcherOutcome::Completed),
                _ => self.drain(),
            },
            Event::Started => match self.stage {
                Stage::Created => {
                    self.stage = Stage::Subscribing;
                    Action::Subscribe
                },
                _ => self.stop(WatcherOutcome::Failed(WatcherError::Protocol)),
            },
            Event::Subscribed => match self.stage {
                Stage::Subscribing => if self.draining {
                    self.stop(WatcherOutcome::Completed)
                } else {
                    self.stage = Stage::Scanning;
                    Action::ScanBacklog
                },
                _ => self.stop(WatcherOutcome::Failed(WatcherError::Protocol)),
            },
            Event::SubscribeFailed => match self.stage {
                Stage::Subscribing => self.stop(WatcherOutcome::Failed(WatcherError::Subscribe)),
                _ => self.stop(WatcherOutcome::Failed(WatcherError::Protocol)),
            },
            Event::BacklogLoaded(items) => match self.stage {
                Stage::Scanning => if self.draining {
                    self.stop(WatcherOutcome::Completed)
                } else {
                    self.load(items)
                },
                _ => self.stop(WatcherOutcome::Failed(WatcherError::Protocol)),
            },
            Event::ScanFailed => match self.stage {
                Stage::Scanning => self.stop(WatcherOutcome::Failed(WatcherError::Scan)),
                _ => self.stop(WatcherOutcome::Failed(WatcherError::Protocol)),
            },
            Event::Published => match self.stage {
                Stage::Publishing => match &self.in_flight {
                    Some(note) => {
                        let key = IdentityKey {
                            chat_id: note.key.chat_id.clone(),
                            sequence_number: note.key.sequence_number,
                            epoch: note.key.epoch,
                        };
                        self.stage = Stage::Deleting;
                        Action::Delete(key)
                    },
                    None => self.stop(WatcherOutcome::Failed(WatcherError::Protocol)),
                },
                _ => self.stop(WatcherOutcome::Failed(WatcherError::Protocol)),
            },
            Event::PublishFailed => match self.stage {
                Stage::Publishing => self.stop(WatcherOutcome::Failed(WatcherError::Publish)),
                _ => self.stop(WatcherOutcome::Failed(WatcherError::Protocol)),
            },
            Event::Deleted => match self.stage {
                Stage::Deleting => match self.in_flight.take() {
                    Some(note) => {
                        self.delivered(note)
                    },
                    None => self.stop(WatcherOutcome::Failed(WatcherError::Protocol)),
                },
                _ => self.stop(WatcherOutcome::Failed(WatcherError::Protocol)),
            },
            Event::DeleteFailed => match self.stage {
                Stage::Deleting => self.stop(WatcherOutcome::Failed(WatcherError::Delete)),
                _ => self.stop(WatcherOutcome::Failed(WatcherError::Protocol)),
            },
            Event::Notified(notification) => match self.stage {
                Stage::Listening => self.notified(notification),
                _ => self.stop(WatcherOutcome::Failed(WatcherError::Protocol)),
            },
            Event::StreamError => match self.stage {
                Stage::Listening => Action::AwaitNotification,
                _ => self.stop(WatcherOutcome::Failed(WatcherError::Protocol)),
            },
            Event::StreamClosed => match self.stage {
                Stage::Listening => self.stop(WatcherOutcome::StreamClosed),
                _ => self.stop(WatcherOutcome::Failed(WatcherError::Protocol)),
            },
        }
    }
}

} // verus!
