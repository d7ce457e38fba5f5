use message_relay::dbwatcher::{
    Action, DatabaseWatcher, Event, Notification, Operation, Phase, ScanItem, WatcherError,
    WatcherOutcome,
};
use message_relay::config::NatsConfig;
use message_relay::dbwatcher::watcher::Skipped;
use message_relay::orchestrator::{Orchestrator, RelayAction, RelayEvent};
use message_relay::publisher::{EncodeError, Encoder, Envelope};
use message_relay::types::{IdentityKey, MessageOutbox, Timestamp};

fn row(chat_id: &str, sequence_number: i64, content: &[u8], seconds: i64) -> MessageOutbox {
    MessageOutbox {
        content: content.to_vec(),
        created_at: Timestamp { seconds, nanos: 0 },
        sequence_number,
        epoch: None,
        chat_id: chat_id.to_string(),
    }
}

fn key(chat_id: &str, sequence_number: i64) -> IdentityKey {
    IdentityKey { chat_id: chat_id.to_string(), sequence_number, epoch: None }
}

fn direct_watcher() -> DatabaseWatcher {
    DatabaseWatcher::new(Encoder::Direct, "messages".to_string(), "chat".to_string())
}

/// Plays the host of a watcher against a table in memory and a bus that
/// always answers the same. Returns every action that the watcher handed out.
fn drive(
    watcher: &mut DatabaseWatcher,
    table: &mut Vec<MessageOutbox>,
    bus_confirms: bool,
    live: Vec<Event>,
) -> Vec<Action> {
    let mut live = live.into_iter();
    let mut log = Vec::new();
    let mut action = watcher.step(Event::Started);
    loop {
        log.push(action.clone());
        let event = match action {
            Action::Subscribe => Event::Subscribed,
            Action::ScanBacklog => {
                Event::BacklogLoaded(table.iter().cloned().map(ScanItem::Row).collect())
            }
            Action::Publish(_) => {
                if bus_confirms {
                    Event::Published
                } else {
                    Event::PublishFailed
                }
            }
            Action::Delete(key) => {
                table.retain(|r| r.key() != key);
                Event::Deleted
            }
            Action::AwaitNotification => live.next().unwrap_or(Event::Cancelled),
            Action::Wait => panic!("nothing was left unanswered"),
            Action::Stop(_) => return log,
        };
        action = watcher.step(event);
    }
}

fn publishes(log: &[Action]) -> Vec<Envelope> {
    let mut found = Vec::new();
    for action in log {
        if let Action::Publish(envelope) = action {
            found.push(envelope.clone());
        }
    }
    found
}

fn deletes(log: &[Action]) -> Vec<IdentityKey> {
    let mut found = Vec::new();
    for action in log {
        if let Action::Delete(key) = action {
            found.push(key.clone());
        }
    }
    found
}

#[test]
fn replay_publishes_then_deletes_the_row() {
    let mut table = vec![row("chat-1", 5, b"hello", 1_700_000_000)];
    let mut watcher = direct_watcher();
    let log = drive(&mut watcher, &mut table, true, vec![]);
    assert_eq!(
        log,
        vec![
            Action::Subscribe,
            Action::ScanBacklog,
            Action::Publish(Envelope {
                destination: "chat.chat-1".to_string(),
                payload: b"hello".to_vec(),
            }),
            Action::Delete(key("chat-1", 5)),
            Action::AwaitNotification,
            Action::Stop(WatcherOutcome::Completed),
        ]
    );
    assert!(table.is_empty());
    assert_eq!(watcher.phase(), Phase::Stopped);
    assert_eq!(watcher.outcome(), Some(WatcherOutcome::Completed));
}

#[test]
fn replay_stops_on_a_failed_publish_and_keeps_the_row() {
    let mut table = vec![row("chat-1", 5, b"hello", 1_700_000_000)];
    let mut watcher = direct_watcher();
    let log = drive(&mut watcher, &mut table, false, vec![]);
    assert_eq!(publishes(&log).len(), 1);
    assert!(deletes(&log).is_empty());
    assert_eq!(
        log.last(),
        Some(&Action::Stop(WatcherOutcome::Failed(WatcherError::Publish)))
    );
    assert_eq!(table, vec![row("chat-1", 5, b"hello", 1_700_000_000)]);
    assert_eq!(watcher.phase(), Phase::Stopped);
}

#[test]
fn replay_of_an_empty_table_does_nothing() {
    for _ in 0..2 {
        let mut table = Vec::new();
        let mut watcher = direct_watcher();
        let log = drive(&mut watcher, &mut table, true, vec![]);
        assert_eq!(
            log,
            vec![
                Action::Subscribe,
                Action::ScanBacklog,
                Action::AwaitNotification,
                Action::Stop(WatcherOutcome::Completed),
            ]
        );
        assert!(table.is_empty());
    }
}

#[test]
fn replay_attempts_each_remaining_row_once() {
    let mut table = vec![
        row("chat-1", 1, b"a", 10),
        row("chat-1", 2, b"b", 20),
        row("chat-2", 1, b"c", 30),
    ];
    let mut first = direct_watcher();
    let log = drive(&mut first, &mut table, false, vec![]);
    assert_eq!(publishes(&log).len(), 1);
    assert_eq!(table.len(), 3);

    let mut second = direct_watcher();
    let log = drive(&mut second, &mut table, true, vec![]);
    assert_eq!(publishes(&log).len(), 3);
    assert_eq!(
        deletes(&log),
        vec![key("chat-1", 1), key("chat-1", 2), key("chat-2", 1)]
    );
    assert!(table.is_empty());

    let mut third = direct_watcher();
    let log = drive(&mut third, &mut table, true, vec![]);
    assert!(publishes(&log).is_empty());
    assert!(deletes(&log).is_empty());
}

#[test]
fn replay_follows_creation_time_not_scan_order() {
    let mut table = vec![
        row("K", 2, b"two", 200),
        row("K", 3, b"three", 300),
        row("K", 1, b"one", 100),
    ];
    let mut watcher = direct_watcher();
    let log = drive(&mut watcher, &mut table, true, vec![]);
    let sent: Vec<Vec<u8>> = publishes(&log).into_iter().map(|e| e.payload).collect();
    assert_eq!(sent, vec![b"one".to_vec(), b"two".to_vec(), b"three".to_vec()]);
    assert_eq!(deletes(&log), vec![key("K", 1), key("K", 2), key("K", 3)]);
    assert!(table.is_empty());
}

#[test]
fn replay_breaks_ties_by_sequence_number_epoch_and_chat() {
    let mut late_epoch = row("a", 1, b"4", 50);
    late_epoch.epoch = Some(7);
    let mut early_epoch = row("a", 1, b"3", 50);
    early_epoch.epoch = Some(-1);
    let mut nanos = row("a", 0, b"6", 50);
    nanos.created_at.nanos = 1;
    let mut table = vec![
        nanos,
        row("b", 2, b"5", 50),
        late_epoch,
        early_epoch,
        row("b", 1, b"2", 50),
        row("a", 1, b"1", 50),
    ];
    let mut watcher = direct_watcher();
    let log = drive(&mut watcher, &mut table, true, vec![]);
    let sent: Vec<Vec<u8>> = publishes(&log).into_iter().map(|e| e.payload).collect();
    assert_eq!(
        sent,
        vec![
            b"1".to_vec(),
            b"2".to_vec(),
            b"3".to_vec(),
            b"4".to_vec(),
            b"5".to_vec(),
            b"6".to_vec()
        ]
    );
}

#[test]
fn unreadable_backlog_rows_are_skipped() {
    let mut watcher = direct_watcher();
    assert_eq!(watcher.step(Event::Started), Action::Subscribe);
    assert_eq!(watcher.step(Event::Subscribed), Action::ScanBacklog);
    let action = watcher.step(Event::BacklogLoaded(vec![
        ScanItem::Unreadable,
        ScanItem::Row(row("chat-1", 5, b"hello", 1)),
        ScanItem::Unreadable,
    ]));
    assert_eq!(
        action,
        Action::Publish(Envelope {
            destination: "chat.chat-1".to_string(),
            payload: b"hello".to_vec(),
        })
    );
    assert_eq!(watcher.phase(), Phase::ReplayingBacklog);
    assert_eq!(watcher.step(Event::Published), Action::Delete(key("chat-1", 5)));
    assert_eq!(watcher.step(Event::Deleted), Action::AwaitNotification);
    assert_eq!(watcher.phase(), Phase::TailingLive);
}

#[test]
fn a_malformed_frame_is_left_in_the_table_and_replay_goes_on() {
    let mut table = vec![
        row("chat-1", 1, &[0xff], 10),
        row("chat-1", 2, &[0x08, 0x01], 20),
    ];
    let mut watcher = DatabaseWatcher::new(
        Encoder::SequencedFrame,
        "messages".to_string(),
        "relay".to_string(),
    );
    let log = drive(&mut watcher, &mut table, true, vec![]);
    assert_eq!(publishes(&log).len(), 1);
    assert_eq!(deletes(&log), vec![key("chat-1", 2)]);
    assert_eq!(table, vec![row("chat-1", 1, &[0xff], 10)]);
    assert_eq!(log.last(), Some(&Action::Stop(WatcherOutcome::Completed)));
    assert_eq!(
        watcher.take_skipped(),
        vec![Skipped { key: key("chat-1", 1), reason: EncodeError::MalformedFrame }]
    );
    assert_eq!(watcher.take_skipped(), vec![]);
}

#[test]
fn a_live_insert_that_cannot_be_encoded_is_noted_and_left() {
    let mut table = Vec::new();
    let mut watcher = DatabaseWatcher::for_bus(
        Encoder::SequencedFrame,
        &NatsConfig {
            url: "nats://localhost".to_string(),
            subject: "relay".to_string(),
            messages_namespace: "messages".to_string(),
        },
    );
    let live = vec![
        Event::Notified(Notification {
            operation: Operation::Insert,
            document: Some(row("chat-3", 9, &[0x0a, 0x7f], 5)),
        }),
        Event::Notified(Notification {
            operation: Operation::Insert,
            document: Some(row("chat-3", 10, &[], 6)),
        }),
    ];
    let log = drive(&mut watcher, &mut table, true, live);
    let sent = publishes(&log);
    assert_eq!(sent.len(), 1);
    assert_eq!(sent[0].destination, "relay.messages.chat-3");
    assert_eq!(deletes(&log), vec![key("chat-3", 10)]);
    assert_eq!(
        watcher.take_skipped(),
        vec![Skipped { key: key("chat-3", 9), reason: EncodeError::MalformedFrame }]
    );
}

#[test]
fn a_failed_publish_brings_the_whole_relay_down() {
    let mut table = Vec::new();
    let mut watcher = direct_watcher();
    let live = vec![Event::Notified(Notification {
        operation: Operation::Insert,
        document: Some(row("chat-9", 1, b"live", 5)),
    })];
    let log = drive(&mut watcher, &mut table, false, live);
    let outcome = match log.last() {
        Some(Action::Stop(outcome)) => *outcome,
        other => panic!("the watcher did not stop: {:?}", other),
    };
    assert_eq!(outcome, WatcherOutcome::Failed(WatcherError::Publish));
    let mut orchestrator = Orchestrator::new();
    assert!(!orchestrator.is_cancelled());
    assert_eq!(
        orchestrator.step(RelayEvent::WatcherFinished(outcome)),
        RelayAction::Cancel { grace_secs: 10 }
    );
    assert!(orchestrator.is_cancelled());
}

#[test]
fn after_the_signal_nothing_new_is_published() {
    let mut watcher = direct_watcher();
    watcher.step(Event::Started);
    assert_eq!(watcher.step(Event::Cancelled), Action::Wait);
    assert_eq!(watcher.phase(), Phase::Draining);
    assert_eq!(
        watcher.step(Event::Subscribed),
        Action::Stop(WatcherOutcome::Completed)
    );

    let mut watcher = direct_watcher();
    watcher.step(Event::Started);
    watcher.step(Event::Subscribed);
    assert_eq!(watcher.step(Event::Cancelled), Action::Wait);
    assert_eq!(
        watcher.step(Event::BacklogLoaded(vec![ScanItem::Row(row("c", 1, b"x", 1))])),
        Action::Stop(WatcherOutcome::Completed)
    );

    let mut watcher = direct_watcher();
    assert_eq!(
        watcher.step(Event::Cancelled),
        Action::Stop(WatcherOutcome::Completed)
    );
    assert_eq!(watcher.phase(), Phase::Stopped);
}

#[test]
fn live_inserts_are_published_and_deleted() {
    let mut table = Vec::new();
    let mut watcher = direct_watcher();
    let live = vec![Event::Notified(Notification {
        operation: Operation::Insert,
        document: Some(row("chat-9", 1, b"live", 5)),
    })];
    let log = drive(&mut watcher, &mut table, true, live);
    assert_eq!(
        log,
        vec![
            Action::Subscribe,
            Action::ScanBacklog,
            Action::AwaitNotification,
            Action::Publish(Envelope {
                destination: "chat.chat-9".to_string(),
                payload: b"live".to_vec(),
            }),
            Action::Delete(key("chat-9", 1)),
            Action::AwaitNotification,
            Action::Stop(WatcherOutcome::Completed),
        ]
    );
}

#[test]
fn notifications_other_than_inserts_publish_nothing() {
    for operation in [
        Operation::Update,
        Operation::Replace,
        Operation::Delete,
        Operation::Other,
    ] {
        let mut table = Vec::new();
        let mut watcher = direct_watcher();
        let live = vec![Event::Notified(Notification {
            operation,
            document: Some(row("chat-9", 1, b"live", 5)),
        })];
        let log = drive(&mut watcher, &mut table, true, live);
        assert!(publishes(&log).is_empty());
        assert!(deletes(&log).is_empty());
        assert_eq!(log.last(), Some(&Action::Stop(WatcherOutcome::Completed)));
    }
}

#[test]
fn an_insert_without_its_document_is_skipped() {
    let mut table = Vec::new();
    let mut watcher = direct_watcher();
    let live = vec![
        Event::Notified(Notification { operation: Operation::Insert, document: None }),
        Event::StreamError,
    ];
    let log = drive(&mut watcher, &mut table, true, live);
    assert!(publishes(&log).is_empty());
    assert_eq!(
        log,
        vec![
            Action::Subscribe,
            Action::ScanBacklog,
            Action::AwaitNotification,
            Action::AwaitNotification,
            Action::AwaitNotification,
            Action::Stop(WatcherOutcome::Completed),
        ]
    );
}

#[test]
fn a_failed_publish_while_tailing_stops_the_watcher() {
    let mut table = Vec::new();
    let mut watcher = direct_watcher();
    let live = vec![Event::Notified(Notification {
        operation: Operation::Insert,
        document: Some(row("chat-9", 1, b"live", 5)),
    })];
    let log = drive(&mut watcher, &mut table, false, live);
    assert_eq!(publishes(&log).len(), 1);
    assert!(deletes(&log).is_empty());
    assert_eq!(
        log.last(),
        Some(&Action::Stop(WatcherOutcome::Failed(WatcherError::Publish)))
    );
    assert_eq!(watcher.phase(), Phase::Stopped);
}

#[test]
fn a_closed_stream_stops_the_watcher() {
    let mut table = Vec::new();
    let mut watcher = direct_watcher();
    let log = drive(&mut watcher, &mut table, true, vec![Event::StreamClosed]);
    assert_eq!(log.last(), Some(&Action::Stop(WatcherOutcome::StreamClosed)));
    assert_eq!(watcher.outcome(), Some(WatcherOutcome::StreamClosed));
}

#[test]
fn a_row_seen_by_replay_and_subscription_is_delivered_once() {
    let mut table = vec![row("chat-1", 5, b"hello", 77)];
    let mut watcher = direct_watcher();
    let live = vec![
        Event::Notified(Notification {
            operation: Operation::Insert,
            document: Some(row("chat-1", 5, b"hello", 77)),
        }),
        Event::Notified(Notification {
            operation: Operation::Insert,
            document: Some(row("chat-1", 5, b"again", 78)),
        }),
    ];
    let log = drive(&mut watcher, &mut table, true, live);
    let sent: Vec<Vec<u8>> = publishes(&log).into_iter().map(|e| e.payload).collect();
    assert_eq!(sent, vec![b"hello".to_vec(), b"again".to_vec()]);
    assert_eq!(deletes(&log), vec![key("chat-1", 5), key("chat-1", 5)]);
}

#[test]
fn cancellation_lets_the_attempt_in_flight_finish() {
    let mut watcher = direct_watcher();
    watcher.step(Event::Started);
    watcher.step(Event::Subscribed);
    let action = watcher.step(Event::BacklogLoaded(vec![
        ScanItem::Row(row("chat-1", 1, b"a", 1)),
        ScanItem::Row(row("chat-1", 2, b"b", 2)),
    ]));
    assert!(matches!(action, Action::Publish(_)));
    assert_eq!(watcher.step(Event::Cancelled), Action::Wait);
    assert_eq!(watcher.phase(), Phase::Draining);
    assert_eq!(watcher.step(Event::Published), Action::Delete(key("chat-1", 1)));
    assert_eq!(watcher.phase(), Phase::Draining);
    assert_eq!(
        watcher.step(Event::Deleted),
        Action::Stop(WatcherOutcome::Completed)
    );
    assert_eq!(watcher.phase(), Phase::Stopped);
    assert_eq!(
        watcher.step(Event::Published),
        Action::Stop(WatcherOutcome::Completed)
    );
}

#[test]
fn an_event_that_answers_nothing_ends_the_watcher() {
    let mut watcher = direct_watcher();
    assert_eq!(
        watcher.step(Event::Published),
        Action::Stop(WatcherOutcome::Failed(WatcherError::Protocol))
    );
    let mut watcher = direct_watcher();
    watcher.step(Event::Started);
    assert_eq!(
        watcher.step(Event::Deleted),
        Action::Stop(WatcherOutcome::Failed(WatcherError::Protocol))
    );
}

#[test]
fn each_startup_failure_has_its_error() {
    let mut watcher = direct_watcher();
    watcher.step(Event::Started);
    assert_eq!(
        watcher.step(Event::SubscribeFailed),
        Action::Stop(WatcherOutcome::Failed(WatcherError::Subscribe))
    );
    let mut watcher = direct_watcher();
    watcher.step(Event::Started);
    watcher.step(Event::Subscribed);
    assert_eq!(
        watcher.step(Event::ScanFailed),
        Action::Stop(WatcherOutcome::Failed(WatcherError::Scan))
    );
    let mut watcher = direct_watcher();
    watcher.step(Event::Started);
    watcher.step(Event::Subscribed);
    watcher.step(Event::BacklogLoaded(vec![ScanItem::Row(row("c", 1, b"x", 1))]));
    watcher.step(Event::Published);
    assert_eq!(
        watcher.step(Event::DeleteFailed),
        Action::Stop(WatcherOutcome::Failed(WatcherError::Delete))
    );
}
