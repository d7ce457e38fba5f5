//! What holds of every watcher.

use vstd::prelude::*;
use vstd::seq_lib::to_multiset_remove;
use crate::dbwatcher::event::{ActionView, EventView, NotificationView, Operation};
use crate::dbwatcher::model::{
    delivery_of,
    position,
    readable,
    DeliveryView,
    Phase,
    SkippedView,
    Stage,
    WatcherView,
};
use crate::dbwatcher::order::replay_order;
use crate::dbwatcher::outcome::{WatcherError, WatcherOutcome};
use crate::publisher::{record_envelope, EncodeError, EnvelopeView};
use crate::types::outbox::{IdentityKeyView, MessageOutboxView};

verus! {

/// Whether `envelope` is what `watcher` hands to the bus for `record`.
pub open spec fn is_envelope_of(
    watcher: WatcherView,
    record: MessageOutboxView,
    envelope: EnvelopeView,
) -> bool {
    record_envelope(watcher.encoder, record, watcher.namespace, watcher.subject) == Ok::<
        EnvelopeView,
        EncodeError,
    >(envelope)
}

/// Whether two watchers encode alike: they have the same encoder,
/// namespace and subject.
pub open spec fn same_settings(a: WatcherView, b: WatcherView) -> bool {
    a.encoder == b.encoder && a.namespace == b.namespace && a.subject == b.subject
}

/// The place among `rows` of the first that has an envelope; the number of
/// rows where none has.
pub open spec fn first_deliverable(settings: WatcherView, rows: Seq<MessageOutboxView>) -> int
    decreases rows.len(),
{
    if rows.len() == 0 {
        0
    } else if record_envelope(settings.encoder, rows[0], settings.namespace, settings.subject)
        is Ok {
        0
    } else {
        1 + first_deliverable(settings, rows.skip(1))
    }
}

/// The notes of the rows of `rows` that have no envelope, in the order of
/// the rows.
pub open spec fn passed_over(settings: WatcherView, rows: Seq<MessageOutboxView>) -> Seq<
    SkippedView,
>
    decreases rows.len(),
{
    if rows.len() == 0 {
        Seq::<SkippedView>::empty()
    } else {
        match record_envelope(settings.encoder, rows[0], settings.namespace, settings.subject) {
            Ok(_) => passed_over(settings, rows.skip(1)),
            Err(reason) => seq![SkippedView { key: rows[0].key(), reason }] + passed_over(
                settings,
                rows.skip(1),
            ),
        }
    }
}

/// Which rows are passed over depends on the watcher's settings alone.
pub proof fn lemma_passing_by_settings(a: WatcherView, b: WatcherView, rows: Seq<MessageOutboxView>)
    requires
        same_settings(a, b),
    ensures
        passed_over(a, rows) == passed_over(b, rows),
        first_deliverable(a, rows) == first_deliverable(b, rows),
    decreases rows.len(),
{
    if rows.len() > 0 {
        lemma_passing_by_settings(a, b, rows.skip(1));
    }
}

/// What the replay does next, said without recursion: the rows before the
/// first that has an envelope are passed over and noted, that row is handed
/// to the bus, and where there is none the watcher turns to the live
/// subscription.
pub proof fn lemma_advance(w: WatcherView)
    ensures
        0 <= first_deliverable(w, w.pending) <= w.pending.len(),
        forall|i: int|
            0 <= i < first_deliverable(w, w.pending) ==> record_envelope(
                w.encoder,
                #[trigger] w.pending[i],
                w.namespace,
                w.subject,
            ) is Err,
        first_deliverable(w, w.pending) == w.pending.len() ==> w.advance() == (WatcherView {
            pending: Seq::<MessageOutboxView>::empty(),
            skipped: w.skipped + passed_over(w, w.pending),
            ..w
        }).listen(),
        first_deliverable(w, w.pending) < w.pending.len() ==> {
            let at = first_deliverable(w, w.pending);
            &&& record_envelope(w.encoder, w.pending[at], w.namespace, w.subject) is Ok
            &&& w.advance() == (
                WatcherView {
                    stage: Stage::Publishing,
                    in_flight: Some(delivery_of(w.pending[at])),
                    pending: w.pending.skip(at + 1),
                    skipped: w.skipped + passed_over(w, w.pending.subrange(0, at)),
                    ..w
                },
                ActionView::Publish(
                    record_envelope(w.encoder, w.pending[at], w.namespace, w.subject)->Ok_0,
                ),
            )
        },
    decreases w.pending.len(),
{
    let rows = w.pending;
    if rows.len() == 0 {
        assert(rows == Seq::<MessageOutboxView>::empty());
        assert(w.skipped + passed_over(w, rows) == w.skipped);
    } else {
        match record_envelope(w.encoder, rows[0], w.namespace, w.subject) {
            Ok(_) => {
                assert(rows.skip(0int + 1) == rows.skip(1));
                assert(rows.subrange(0, 0).len() == 0);
                assert(w.skipped + passed_over(w, rows.subrange(0, 0)) == w.skipped);
            },
            Err(reason) => {
                let note = SkippedView { key: rows[0].key(), reason };
                let rest = (WatcherView { pending: rows.skip(1), ..w }).pass_over(rows[0], reason);
                assert(w.advance() == rest.advance());
                lemma_advance(rest);
                lemma_passing_by_settings(w, rest, rows.skip(1));
                let at = first_deliverable(rest, rest.pending);
                assert(first_deliverable(w, rows) == at + 1);
                assert forall|i: int| 0 <= i < at + 1 implies record_envelope(
                    w.encoder,
                    #[trigger] rows[i],
                    w.namespace,
                    w.subject,
                ) is Err by {
                    if i > 0 {
                        assert(rows[i] == rest.pending[i - 1]);
                    }
                }
                if at < rest.pending.len() {
                    let head = rows.subrange(0, at + 1);
                    assert(rest.pending[at] == rows[at + 1]);
                    assert(rest.pending.skip(at + 1) == rows.skip(at + 1 + 1));
                    assert(head[0] == rows[0]);
                    assert(head.skip(1) == rest.pending.subrange(0, at));
                    lemma_passing_by_settings(w, rest, rest.pending.subrange(0, at));
                    assert(passed_over(w, head) == seq![note] + passed_over(
                        w,
                        rest.pending.subrange(0, at),
                    ));
                    assert(w.skipped.push(note) + passed_over(w, rest.pending.subrange(0, at))
                        == w.skipped + passed_over(w, head));
                } else {
                    assert(w.skipped.push(note) + passed_over(w, rows.skip(1)) == w.skipped
                        + passed_over(w, rows));
                    assert((WatcherView {
                        pending: Seq::<MessageOutboxView>::empty(),
                        skipped: rest.skipped + passed_over(rest, rest.pending),
                        ..rest
                    }) == (WatcherView {
                        pending: Seq::<MessageOutboxView>::empty(),
                        skipped: w.skipped + passed_over(w, rows),
                        ..w
                    }));
                }
            },
        }
    }
}

/// No delete without a confirmed publish, and no confirmed publish without
/// a delete: the watcher asks for the row with `key` to be deleted exactly
/// where the envelope of a record with that key is with the bus and the bus
/// confirms it.
pub proof fn law_delete_iff_publish_confirmed(w: WatcherView, event: EventView, key: IdentityKeyView)
    ensures
        w.next(event).1 == ActionView::Delete(key) <==> {
            &&& w.stage == Stage::Publishing
            &&& event == EventView::Published
            &&& w.in_flight matches Some(note)
            &&& note.key == key
        },
{
    lemma_advance(w);
    match (w.stage, event) {
        (Stage::Scanning, EventView::BacklogLoaded(items)) => {
            lemma_advance(
                WatcherView {
                    pending: replay_order(
                        readable(items),
                    ),
                    ..w
                },
            );
        },
        (Stage::Deleting, EventView::Deleted) => {
            if let Some(note) = w.in_flight {
                lemma_advance(
                    WatcherView { replayed: w.replayed.push(note), in_flight: None, ..w },
                );
            }
        },
        _ => {},
    }
}

/// How a watcher comes to have an envelope with the bus: either this step
/// handed it out, for a record that the watcher now keeps in flight, or it
/// was with the bus before and the step only took note of the cancellation
/// signal.
pub proof fn lemma_publishing_stage(w: WatcherView, event: EventView)
    requires
        w.next(event).0.stage == Stage::Publishing,
    ensures
        same_settings(w, w.next(event).0),
        (w.next(event).1 matches ActionView::Publish(envelope) && exists|record: MessageOutboxView|
            #![trigger delivery_of(record)]
            w.next(event).0.in_flight == Some(delivery_of(record)) && is_envelope_of(
                w,
                record,
                envelope,
            )) || (w.stage == Stage::Publishing && event == EventView::Cancelled && w.next(
            event,
        ).0.in_flight == w.in_flight && w.next(event).1 == ActionView::Wait),
{
    match (w.stage, event) {
        (Stage::Scanning, EventView::BacklogLoaded(items)) => {
            let loaded = WatcherView {
                pending: replay_order(
                    readable(items),
                ),
                ..w
            };
            lemma_advance(loaded);
            if !w.draining {
                let at = first_deliverable(loaded, loaded.pending);
                assert(w.next(event).0.in_flight == Some(delivery_of(loaded.pending[at])));
            }
        },
        (Stage::Deleting, EventView::Deleted) => {
            if let Some(note) = w.in_flight {
                let going = WatcherView {
                    replayed: w.replayed.push(note),
                    in_flight: None,
                    ..w
                };
                lemma_advance(going);
                if !w.draining && !w.tailing {
                    let at = first_deliverable(going, going.pending);
                    assert(w.next(event).0.in_flight == Some(delivery_of(going.pending[at])));
                }
            }
        },
        (Stage::Listening, EventView::Notified(notification)) => {
            if let Some(record) = notification.document {
                assert(w.next(event).0.in_flight == Some(delivery_of(record)));
            }
        },
        _ => {},
    }
}

/// A step changes neither the encoder nor the namespace nor the subject of
/// a watcher.
pub proof fn lemma_settings_kept(w: WatcherView, event: EventView)
    ensures
        same_settings(w, w.next(event).0),
{
    match (w.stage, event) {
        (Stage::Scanning, EventView::BacklogLoaded(items)) => {
            lemma_advance(
                WatcherView {
                    pending: replay_order(
                        readable(items),
                    ),
                    ..w
                },
            );
        },
        (Stage::Deleting, EventView::Deleted) => {
            if let Some(note) = w.in_flight {
                lemma_advance(
                    WatcherView { replayed: w.replayed.push(note), in_flight: None, ..w },
                );
            }
        },
        _ => {},
    }
}

/// Every event has its answer, and the answers to the events after the
/// first are those that the next state gives.
pub proof fn lemma_answers(w: WatcherView, events: Seq<EventView>)
    ensures
        w.answers(events).len() == events.len(),
        forall|i: int|
            1 <= i < events.len() ==> #[trigger] w.answers(events)[i] == w.next(
                events[0],
            ).0.answers(events.skip(1))[i - 1],
        events.len() > 0 ==> w.answers(events)[0] == w.next(events[0]).1,
    decreases events.len(),
{
    if events.len() > 0 {
        lemma_answers(w.next(events[0]).0, events.skip(1));
    }
}

/// Whether the envelope of a record with `key` is with the bus.
pub open spec fn with_bus(w: WatcherView, key: IdentityKeyView) -> bool {
    &&& w.stage == Stage::Publishing
    &&& w.in_flight matches Some(note)
    &&& note.key == key
}

/// Whether the answer to the event at `at` hands the envelope of a record
/// with `key` to the bus.
pub open spec fn publishes_at(
    w: WatcherView,
    events: Seq<EventView>,
    at: int,
    key: IdentityKeyView,
) -> bool {
    &&& 0 <= at < events.len()
    &&& w.answers(events)[at] matches ActionView::Publish(envelope)
    &&& exists|record: MessageOutboxView|
        #![trigger delivery_of(record)]
        delivery_of(record).key == key && is_envelope_of(w, record, envelope)
}

/// Whether the events from `from` up to `to` are all the cancellation
/// signal.
pub open spec fn only_cancelled(events: Seq<EventView>, from: int, to: int) -> bool {
    forall|k: int| from <= k < to ==> #[trigger] events[k] == EventView::Cancelled
}

/// Where a run asks for a row to be deleted, the bus has just confirmed the
/// envelope of that row: the envelope was with the bus when the run began,
/// or the run handed it out before, and nothing but the cancellation signal
/// has come in since.
pub proof fn lemma_delete_follows_publish(
    w: WatcherView,
    events: Seq<EventView>,
    at: int,
    key: IdentityKeyView,
)
    requires
        0 <= at < events.len(),
        w.answers(events)[at] == ActionView::Delete(key),
    ensures
        events[at] == EventView::Published,
        (with_bus(w, key) && only_cancelled(events, 0, at)) || exists|earlier: int|
            0 <= earlier < at && #[trigger] publishes_at(w, events, earlier, key) && only_cancelled(
                events,
                earlier + 1,
                at,
            ),
    decreases at,
{
    lemma_answers(w, events);
    if at == 0 {
        law_delete_iff_publish_confirmed(w, events[0], key);
    } else {
        let next = w.next(events[0]).0;
        let rest = events.skip(1);
        lemma_delete_follows_publish(next, rest, at - 1, key);
        lemma_settings_kept(w, events[0]);
        if with_bus(next, key) && only_cancelled(rest, 0, at - 1) {
            lemma_publishing_stage(w, events[0]);
            if w.next(events[0]).1 is Publish {
                assert(publishes_at(w, events, 0, key));
                assert forall|k: int| 1 <= k < at implies #[trigger] events[k]
                    == EventView::Cancelled by {
                    assert(rest[k - 1] == events[k]);
                }
                assert(only_cancelled(events, 0int + 1, at));
            } else {
                assert forall|k: int| 0 <= k < at implies #[trigger] events[k]
                    == EventView::Cancelled by {
                    if k > 0 {
                        assert(rest[k - 1] == events[k]);
                    }
                }
            }
        } else {
            let later = choose|earlier: int|
                0 <= earlier < at - 1 && #[trigger] publishes_at(next, rest, earlier, key)
                    && only_cancelled(rest, earlier + 1, at - 1);
            assert(w.answers(events)[later + 1] == next.answers(rest)[later]);
            let envelope = next.answers(rest)[later]->Publish_0;
            let record = choose|record: MessageOutboxView|
                #![trigger delivery_of(record)]
                delivery_of(record).key == key && is_envelope_of(next, record, envelope);
            assert(delivery_of(record).key == key && is_envelope_of(w, record, envelope));
            assert(publishes_at(w, events, later + 1, key));
            assert forall|k: int| later + 2 <= k < at implies #[trigger] events[k]
                == EventView::Cancelled by {
                assert(rest[k - 1] == events[k]);
            }
            assert(only_cancelled(events, later + 1 + 1, at));
        }
    }
}

/// Publish, then delete, never the other way round: in every run of a
/// watcher that begins with nothing in flight, a request to delete a row
/// answers the bus confirming the envelope of that row, which the run has
/// handed out before; between the two nothing came in but the cancellation
/// signal.
pub proof fn law_no_delete_before_publish(
    w: WatcherView,
    events: Seq<EventView>,
    at: int,
    key: IdentityKeyView,
)
    requires
        w.stage != Stage::Publishing,
        0 <= at < events.len(),
        w.answers(events)[at] == ActionView::Delete(key),
    ensures
        events[at] == EventView::Published,
        exists|earlier: int|
            0 <= earlier < at && #[trigger] publishes_at(w, events, earlier, key) && only_cancelled(
                events,
                earlier + 1,
                at,
            ),
{
    lemma_delete_follows_publish(w, events, at, key);
}

/// Only inserts are delivered: a notification of anything else hands
/// nothing to the bus and deletes nothing, and a watcher that follows the
/// live subscription stays as it is.
pub proof fn law_only_inserts_are_published(w: WatcherView, notification: NotificationView)
    requires
        notification.operation != Operation::Insert,
    ensures
        !(w.next(EventView::Notified(notification)).1 is Publish),
        !(w.next(EventView::Notified(notification)).1 is Delete),
        w.stage == Stage::Listening ==> w.next(EventView::Notified(notification)) == (
            w,
            ActionView::AwaitNotification,
        ),
{
}

/// A failed publish is fatal: the watcher ends with an error, whatever its
/// phase, and asks for nothing more.
pub proof fn law_publish_failure_stops_watcher(w: WatcherView)
    requires
        w.stage == Stage::Publishing,
    ensures
        w.next(EventView::PublishFailed).1 == ActionView::Stop(
            WatcherOutcome::Failed(WatcherError::Publish),
        ),
        w.next(EventView::PublishFailed).0.phase() == Phase::Stopped,
        w.next(EventView::PublishFailed).0.in_flight is None,
        forall|event: EventView|
            w.next(EventView::PublishFailed).0.next(event) == (
                w.next(EventView::PublishFailed).0,
                ActionView::Stop(WatcherOutcome::Failed(WatcherError::Publish)),
            ),
{
}

/// What holds of every watcher that has come about from a new one: the
/// cancellation signal is only ever noted while an answer is owed.
pub open spec fn coherent(w: WatcherView) -> bool {
    w.draining ==> (w.stage is Subscribing || w.stage is Scanning || w.stage is Publishing
        || w.stage is Deleting || w.stage is Stopped)
}

/// A new watcher is coherent, and every step keeps a watcher so.
pub proof fn lemma_coherent(w: WatcherView, event: EventView)
    requires
        coherent(w),
    ensures
        coherent(w.next(event).0),
        coherent(WatcherView::initial(w.encoder, w.namespace, w.subject)),
{
    match (w.stage, event) {
        (Stage::Scanning, EventView::BacklogLoaded(items)) => {
            lemma_advance(
                WatcherView {
                    pending: replay_order(
                        readable(items),
                    ),
                    ..w
                },
            );
        },
        (Stage::Deleting, EventView::Deleted) => {
            if let Some(note) = w.in_flight {
                lemma_advance(
                    WatcherView { replayed: w.replayed.push(note), in_flight: None, ..w },
                );
            }
        },
        _ => {},
    }
}

/// Draining: a watcher that has seen the cancellation signal starts no new
/// publish. It lets the attempt in flight complete or fail: a confirmed
/// envelope still has its row deleted, and whatever else comes in next ends
/// the watcher.
pub proof fn law_draining_starts_no_publish(w: WatcherView, event: EventView)
    requires
        coherent(w),
        w.draining,
    ensures
        !(w.next(event).1 is Publish),
        w.next(event).0.draining,
        event == EventView::Cancelled && !(w.stage is Stopped) ==> w.next(event) == (
            w,
            ActionView::Wait,
        ),
        event != EventView::Cancelled ==> w.next(event).0.stage is Stopped || (w.stage
            == Stage::Publishing && event == EventView::Published && w.next(event).0.stage
            == Stage::Deleting && w.next(event).1 is Delete),
        w.stage == Stage::Deleting && event == EventView::Deleted && w.in_flight is Some
            ==> w.next(event).1 == ActionView::Stop(WatcherOutcome::Completed),
{
}

/// The cancellation signal always finds its way: whatever a watcher is
/// doing, the signal either ends it cleanly at once or is noted, and a
/// watcher that has noted it is draining from then on.
pub proof fn law_cancellation_is_noted(w: WatcherView)
    requires
        !(w.stage is Stopped),
    ensures
        w.stage is Created || w.stage is Listening ==> w.next(EventView::Cancelled).1
            == ActionView::Stop(WatcherOutcome::Completed),
        !(w.stage is Created || w.stage is Listening) ==> w.next(EventView::Cancelled) == (
            WatcherView { draining: true, ..w },
            ActionView::Wait,
        ),
        w.next(EventView::Cancelled).0.phase() == Phase::Stopped || w.next(
            EventView::Cancelled,
        ).0.phase() == Phase::Draining,
{
}

/// A note is found at its first place exactly where the notes hold it.
pub proof fn lemma_position(notes: Seq<DeliveryView>, note: DeliveryView)
    ensures
        0 <= position(notes, note) <= notes.len(),
        position(notes, note) < notes.len() <==> notes.contains(note),
        position(notes, note) < notes.len() ==> notes[position(
            notes,
            note,
        )] == note,
    decreases notes.len(),
{
    if notes.len() > 0 && notes[0] != note {
        let rest = notes.skip(1);
        lemma_position(rest, note);
        let at = position(rest, note);
        if at < rest.len() {
            assert(notes[at + 1] == rest[at]);
        }
        if notes.contains(note) {
            let k = choose|k: int| 0 <= k < notes.len() && notes[k] == note;
            assert(rest[k - 1] == note);
        }
    }
}

/// No gap and no double delivery between replay and live subscription: an
/// insert that the live subscription shows of a row that the replay has
/// delivered already is not published again. The note of the row is used up
/// by it, so that a later row with the same key and time is delivered.
pub proof fn law_replayed_row_is_not_published_again(w: WatcherView, record: MessageOutboxView)
    requires
        w.stage == Stage::Listening,
        w.replayed.contains(delivery_of(record)),
    ensures
        ({
            let notification = NotificationView {
                operation: Operation::Insert,
                document: Some(record),
            };
            let (next, action) = w.next(EventView::Notified(notification));
            &&& action == ActionView::AwaitNotification
            &&& next.stage == Stage::Listening
            &&& next.replayed.len() == w.replayed.len() - 1
            &&& next.replayed.to_multiset() == w.replayed.to_multiset().remove(
                delivery_of(record),
            )
        }),
{
    lemma_position(w.replayed, delivery_of(record));
    let at = position(w.replayed, delivery_of(record));
    to_multiset_remove(w.replayed, at);
}

/// A live insert of a row that the replay has not delivered is handed to
/// the bus where it has an envelope. Where it has none, the row is left in
/// the table and a note is kept of it.
pub proof fn law_live_insert_is_published(w: WatcherView, record: MessageOutboxView)
    requires
        w.stage == Stage::Listening,
        !w.replayed.contains(delivery_of(record)),
    ensures
        ({
            let notification = NotificationView {
                operation: Operation::Insert,
                document: Some(record),
            };
            let (next, action) = w.next(EventView::Notified(notification));
            match record_envelope(w.encoder, record, w.namespace, w.subject) {
                Ok(envelope) => action == ActionView::Publish(envelope) && next.stage
                    == Stage::Publishing && next.in_flight == Some(delivery_of(record)),
                Err(reason) => action == ActionView::AwaitNotification && next == w.pass_over(
                    record,
                    reason,
                ),
            }
        }),
{
    lemma_position(w.replayed, delivery_of(record));
}

/// Whether a watcher hands nothing more to the bus: it has ended, or it has
/// noted the cancellation signal.
pub open spec fn winding_down(w: WatcherView) -> bool {
    w.stage is Stopped || (w.draining && coherent(w))
}

/// A watcher that winds down goes on winding down, and publishes nothing.
pub proof fn lemma_winding_down(w: WatcherView, event: EventView)
    requires
        winding_down(w),
    ensures
        winding_down(w.next(event).0),
        !(w.next(event).1 is Publish),
{
    if !(w.stage is Stopped) {
        law_draining_starts_no_publish(w, event);
        lemma_coherent(w, event);
    }
}

/// Taking in one run of events after another is taking in the two as one.
pub proof fn lemma_after_both(w: WatcherView, first: Seq<EventView>, second: Seq<EventView>)
    ensures
        w.after(first + second) == w.after(first).after(second),
    decreases first.len(),
{
    if first.len() == 0 {
        assert(first + second == second);
    } else {
        assert((first + second)[0] == first[0]);
        assert((first + second).skip(1) == first.skip(1) + second);
        lemma_after_both(w.next(first[0]).0, first.skip(1), second);
    }
}

/// The answer to an event of a run is the one that the state reached by
/// the events before it gives.
pub proof fn lemma_answer_at(w: WatcherView, events: Seq<EventView>, at: int)
    requires
        0 <= at < events.len(),
    ensures
        w.answers(events)[at] == w.after(events.subrange(0, at)).next(events[at]).1,
    decreases at,
{
    lemma_answers(w, events);
    if at == 0 {
        assert(events.subrange(0, 0).len() == 0);
    } else {
        let rest = events.skip(1);
        lemma_answer_at(w.next(events[0]).0, rest, at - 1);
        assert(events.subrange(0, at)[0] == events[0]);
        assert(events.subrange(0, at).skip(1) == rest.subrange(0, at - 1));
        assert(rest[at - 1] == events[at]);
    }
}

/// Every state that a coherent watcher reaches is coherent, and a watcher
/// that winds down does so in every state it reaches.
pub proof fn lemma_reached_states(w: WatcherView, events: Seq<EventView>)
    requires
        coherent(w),
    ensures
        coherent(w.after(events)),
        winding_down(w) ==> winding_down(w.after(events)),
    decreases events.len(),
{
    if events.len() > 0 {
        lemma_coherent(w, events[0]);
        if winding_down(w) {
            lemma_winding_down(w, events[0]);
        }
        lemma_reached_states(w.next(events[0]).0, events.skip(1));
    }
}

/// Cancellation is cooperative and final: in a run of a watcher, once the
/// cancellation signal has come in, no envelope is handed to the bus any
/// more.
pub proof fn law_no_publish_after_cancellation(
    w: WatcherView,
    events: Seq<EventView>,
    signal: int,
    later: int,
)
    requires
        coherent(w),
        0 <= signal < later < events.len(),
        events[signal] == EventView::Cancelled,
    ensures
        !(w.answers(events)[later] is Publish),
{
    let before = events.subrange(0, signal);
    let between = events.subrange(signal + 1, later);
    let noted = w.after(before).next(EventView::Cancelled).0;
    lemma_reached_states(w, before);
    lemma_coherent(w.after(before), EventView::Cancelled);
    assert(winding_down(noted));
    lemma_reached_states(noted, between);
    let one = seq![EventView::Cancelled];
    let upto = before + one;
    lemma_after_both(w, before, one);
    assert(one[0] == EventView::Cancelled);
    assert(one.skip(1).len() == 0);
    assert(noted.after(one.skip(1)) == noted);
    assert(w.after(before).after(one) == noted);
    lemma_after_both(w, upto, between);
    assert(upto + between == events.subrange(0, later));
    lemma_answer_at(w, events, later);
    lemma_winding_down(w.after(events.subrange(0, later)), events[later]);
}

} // verus!
