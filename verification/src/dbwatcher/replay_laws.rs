//! What holds of every replay of a backlog.

use vstd::prelude::*;
use vstd::seq_lib::to_multiset_contains;
use crate::dbwatcher::event::{ActionView, EventView, ScanItemView};
use crate::dbwatcher::laws::{
    first_deliverable,
    lemma_advance,
    lemma_passing_by_settings,
    passed_over,
    same_settings,
};
use crate::dbwatcher::model::{
    delivery_of,
    readable,
    DeliveryView,
    Phase,
    SkippedView,
    Stage,
    WatcherView,
};
use crate::dbwatcher::order::replay_order;
use crate::dbwatcher::order_laws::{distinct_keys, law_replay_order_keeps_rows};
use crate::dbwatcher::outcome::{WatcherError, WatcherOutcome};
use crate::publisher::record_envelope;
use crate::types::outbox::{IdentityKeyView, MessageOutboxView};

verus! {

/// What a replay of `rows` asks for when the bus confirms every envelope and
/// the table every delete: each row that has an envelope is published once
/// and deleted right after, in the order of the rows; a row without an
/// envelope is passed over; at the end the watcher turns to the live
/// subscription.
pub open spec fn replay_script(settings: WatcherView, rows: Seq<MessageOutboxView>) -> Seq<
    ActionView,
>
    decreases rows.len(),
{
    if rows.len() == 0 {
        seq![ActionView::AwaitNotification]
    } else {
        match record_envelope(settings.encoder, rows[0], settings.namespace, settings.subject) {
            Ok(envelope) => seq![ActionView::Publish(envelope), ActionView::Delete(rows[0].key())]
                + replay_script(settings, rows.skip(1)),
            Err(_) => replay_script(settings, rows.skip(1)),
        }
    }
}

/// The answers of a bus that confirms every envelope and of a table that
/// confirms every delete, to a replay of `rows`.
pub open spec fn confirmations(settings: WatcherView, rows: Seq<MessageOutboxView>) -> Seq<
    EventView,
>
    decreases rows.len(),
{
    if rows.len() == 0 {
        Seq::<EventView>::empty()
    } else {
        match record_envelope(settings.encoder, rows[0], settings.namespace, settings.subject) {
            Ok(_) => seq![EventView::Published, EventView::Deleted] + confirmations(
                settings,
                rows.skip(1),
            ),
            Err(_) => confirmations(settings, rows.skip(1)),
        }
    }
}

/// The notes of the rows that a replay of `rows` delivers.
pub open spec fn deliveries(settings: WatcherView, rows: Seq<MessageOutboxView>) -> Seq<
    DeliveryView,
>
    decreases rows.len(),
{
    if rows.len() == 0 {
        Seq::<DeliveryView>::empty()
    } else {
        match record_envelope(settings.encoder, rows[0], settings.namespace, settings.subject) {
            Ok(_) => seq![delivery_of(rows[0])] + deliveries(settings, rows.skip(1)),
            Err(_) => deliveries(settings, rows.skip(1)),
        }
    }
}

/// The script, the confirmations, the deliveries and the passed-over rows
/// of a replay depend on the watcher's settings alone.
pub proof fn lemma_script_by_settings(a: WatcherView, b: WatcherView, rows: Seq<MessageOutboxView>)
    requires
        same_settings(a, b),
    ensures
        replay_script(a, rows) == replay_script(b, rows),
        confirmations(a, rows) == confirmations(b, rows),
        deliveries(a, rows) == deliveries(b, rows),
        passed_over(a, rows) == passed_over(b, rows),
    decreases rows.len(),
{
    lemma_passing_by_settings(a, b, rows);
    if rows.len() > 0 {
        lemma_script_by_settings(a, b, rows.skip(1));
    }
}

/// The replay of the pending rows, from any point of it: with every envelope
/// and every delete confirmed, the watcher asks for exactly what
/// [`replay_script`] says and ends up following the live subscription, with
/// a note of every row that it delivered.
pub proof fn lemma_replay_from(w: WatcherView)
    requires
        !w.draining,
        !w.tailing,
    ensures
        seq![w.advance().1] + w.advance().0.answers(confirmations(w, w.pending)) == replay_script(
            w,
            w.pending,
        ),
        w.advance().0.after(confirmations(w, w.pending)) == (WatcherView {
            stage: Stage::Listening,
            tailing: true,
            in_flight: None,
            pending: Seq::<MessageOutboxView>::empty(),
            replayed: w.replayed + deliveries(w, w.pending),
            skipped: w.skipped + passed_over(w, w.pending),
            ..w
        }),
    decreases w.pending.len(),
{
    if w.pending.len() == 0 {
        assert(w.pending == Seq::<MessageOutboxView>::empty());
        assert(w.replayed + deliveries(w, w.pending) == w.replayed);
        assert(w.skipped + passed_over(w, w.pending) == w.skipped);
        assert(seq![w.advance().1] + Seq::<ActionView>::empty() == seq![w.advance().1]);
    } else {
        match record_envelope(w.encoder, w.pending[0], w.namespace, w.subject) {
            Err(reason) => {
                let note = SkippedView { key: w.pending[0].key(), reason };
                let rest = (WatcherView { pending: w.pending.skip(1), ..w }).pass_over(
                    w.pending[0],
                    reason,
                );
                assert(w.advance() == rest.advance());
                lemma_replay_from(rest);
                lemma_script_by_settings(w, rest, w.pending.skip(1));
                assert(w.skipped.push(note) + passed_over(w, w.pending.skip(1)) == w.skipped
                    + passed_over(w, w.pending));
            },
            Ok(envelope) => {
                let note = delivery_of(w.pending[0]);
                let publishing = w.advance().0;
                let tail = confirmations(w, w.pending.skip(1));
                let events = seq![EventView::Published, EventView::Deleted] + tail;
                assert(confirmations(w, w.pending) == events);
                let deleting = publishing.next(EventView::Published).0;
                assert(publishing.next(EventView::Published).1 == ActionView::Delete(
                    w.pending[0].key(),
                ));
                let going = WatcherView {
                    replayed: deleting.replayed.push(note),
                    in_flight: None,
                    ..deleting
                };
                assert(deleting.next(EventView::Deleted) == going.advance());
                assert(going.pending == w.pending.skip(1));
                lemma_replay_from(going);
                lemma_script_by_settings(w, going, w.pending.skip(1));
                assert(events[0] == EventView::Published);
                assert(events.skip(1)[0] == EventView::Deleted);
                assert(events.skip(1).skip(1) == tail);
                assert(publishing.answers(events) == seq![
                    ActionView::Delete(w.pending[0].key()),
                ] + deleting.answers(events.skip(1)));
                assert(deleting.answers(events.skip(1)) == seq![going.advance().1]
                    + going.advance().0.answers(tail));
                assert(publishing.after(events) == deleting.after(events.skip(1)));
                assert(deleting.after(events.skip(1)) == going.advance().0.after(tail));
                assert(going.replayed + deliveries(w, w.pending.skip(1)) == w.replayed
                    + deliveries(w, w.pending));
                assert(passed_over(w, w.pending) == passed_over(w, w.pending.skip(1)));
                assert(seq![w.advance().1] + publishing.answers(events) == replay_script(
                    w,
                    w.pending,
                ));
            },
        }
    }
}

/// Replay: a watcher that has asked for the backlog and gets it, with a bus
/// and a table that confirm whatever they are asked, publishes every row
/// that has an envelope exactly once, oldest first whatever the order of the
/// scan, deletes each right after its publish, leaves the rows without an
/// envelope in the table and keeps a note of each, and then follows the live
/// subscription.
pub proof fn law_replay_attempts_each_row_once(w: WatcherView, items: Seq<
    ScanItemView,
>)
    requires
        w.stage == Stage::Scanning,
        !w.draining,
        !w.tailing,
    ensures
        ({
            let rows = replay_order(
                readable(items),
            );
            let events = seq![EventView::BacklogLoaded(items)] + confirmations(w, rows);
            &&& w.answers(events) == replay_script(w, rows)
            &&& w.after(events).phase() == Phase::TailingLive
            &&& w.after(events).stage == Stage::Listening
            &&& w.after(events).pending.len() == 0
            &&& w.after(events).replayed == w.replayed + deliveries(w, rows)
            &&& w.after(events).skipped == w.skipped + passed_over(w, rows)
        }),
{
    let rows = replay_order(readable(items));
    let events = seq![EventView::BacklogLoaded(items)] + confirmations(w, rows);
    let loaded = WatcherView { pending: rows, ..w };
    lemma_replay_from(loaded);
    lemma_script_by_settings(w, loaded, rows);
    assert(events[0] == EventView::BacklogLoaded(items));
    assert(events.skip(1) == confirmations(w, rows));
    assert(w.next(events[0]) == loaded.advance());
}

/// A failed publish halts the replay: where the bus does not take the first
/// envelope of a replay, the watcher has attempted that one row, deletes
/// nothing, and ends with an error.
pub proof fn law_failed_publish_halts_replay(w: WatcherView, items: Seq<ScanItemView>)
    requires
        w.stage == Stage::Scanning,
        !w.draining,
        !w.tailing,
        first_deliverable(w, replay_order(readable(items))) < replay_order(
            readable(items),
        ).len(),
    ensures
        ({
            let rows = replay_order(readable(items));
            let first = rows[first_deliverable(w, rows)];
            let events = seq![EventView::BacklogLoaded(items), EventView::PublishFailed];
            &&& record_envelope(w.encoder, first, w.namespace, w.subject) is Ok
            &&& w.answers(events) == seq![
                ActionView::Publish(
                    record_envelope(w.encoder, first, w.namespace, w.subject)->Ok_0,
                ),
                ActionView::Stop(WatcherOutcome::Failed(WatcherError::Publish)),
            ]
            &&& w.after(events).phase() == Phase::Stopped
        }),
{
    let rows = replay_order(readable(items));
    let loaded = WatcherView { pending: rows, ..w };
    let events = seq![EventView::BacklogLoaded(items), EventView::PublishFailed];
    lemma_advance(loaded);
    lemma_passing_by_settings(w, loaded, rows);
    let publishing = w.next(events[0]).0;
    let rest = events.skip(1);
    assert(rest[0] == EventView::PublishFailed);
    assert(rest.skip(1).len() == 0);
    let stopped = publishing.next(EventView::PublishFailed).0;
    assert(stopped.answers(rest.skip(1)) == Seq::<ActionView>::empty());
    assert(stopped.after(rest.skip(1)) == stopped);
    assert(publishing.answers(rest) == seq![
        ActionView::Stop(WatcherOutcome::Failed(WatcherError::Publish)),
    ]);
    assert(publishing.after(rest) == stopped);
}

/// Replaying an empty table is a no-op, however often it is done: nothing
/// is published and nothing deleted, and the watcher follows the live
/// subscription.
pub proof fn law_empty_replay_does_nothing(w: WatcherView)
    requires
        w.stage == Stage::Scanning,
        !w.draining,
        !w.tailing,
    ensures
        w.next(EventView::BacklogLoaded(Seq::empty())) == (
            WatcherView {
                stage: Stage::Listening,
                tailing: true,
                in_flight: None,
                pending: Seq::<MessageOutboxView>::empty(),
                ..w
            },
            ActionView::AwaitNotification,
        ),
{
    let items = Seq::<ScanItemView>::empty();
    assert(readable(items) == Seq::<MessageOutboxView>::empty());
    assert(replay_order(Seq::<MessageOutboxView>::empty()) == Seq::<
        MessageOutboxView,
    >::empty());
}

/// The rows of `rows` that have no envelope: what a replay leaves in the
/// table when the bus confirms every envelope and the table every delete.
pub open spec fn left_over(settings: WatcherView, rows: Seq<MessageOutboxView>) -> Seq<
    MessageOutboxView,
> {
    rows.filter(
        |row: MessageOutboxView|
            record_envelope(settings.encoder, row, settings.namespace, settings.subject) is Err,
    )
}

/// A replay of rows that all lack an envelope asks for nothing but the next
/// notification.
pub proof fn lemma_nothing_to_deliver(settings: WatcherView, rows: Seq<MessageOutboxView>)
    requires
        forall|i: int|
            0 <= i < rows.len() ==> record_envelope(
                settings.encoder,
                #[trigger] rows[i],
                settings.namespace,
                settings.subject,
            ) is Err,
    ensures
        replay_script(settings, rows) == seq![ActionView::AwaitNotification],
        confirmations(settings, rows) == Seq::<EventView>::empty(),
    decreases rows.len(),
{
    if rows.len() > 0 {
        assert forall|i: int| 0 <= i < rows.skip(1).len() implies record_envelope(
            settings.encoder,
            #[trigger] rows.skip(1)[i],
            settings.namespace,
            settings.subject,
        ) is Err by {
            assert(rows.skip(1)[i] == rows[i + 1]);
        }
        lemma_nothing_to_deliver(settings, rows.skip(1));
    }
}

/// Idempotent replay: a second replay, of what a fully confirmed replay has
/// left in the table, publishes nothing and deletes nothing.
pub proof fn law_second_replay_publishes_nothing(settings: WatcherView, rows: Seq<
    MessageOutboxView,
>)
    ensures
        replay_script(
            settings,
            replay_order(left_over(settings, rows)),
        ) == seq![ActionView::AwaitNotification],
{
    let lacks = |row: MessageOutboxView|
        record_envelope(settings.encoder, row, settings.namespace, settings.subject) is Err;
    let left = left_over(settings, rows);
    let again = replay_order(left);
    law_replay_order_keeps_rows(left);
    assert forall|i: int| 0 <= i < again.len() implies record_envelope(
        settings.encoder,
        #[trigger] again[i],
        settings.namespace,
        settings.subject,
    ) is Err by {
        to_multiset_contains(again, again[i]);
        to_multiset_contains(left, again[i]);
        assert(again.contains(again[i]));
        assert(left.contains(again[i]));
        let k = choose|k: int| 0 <= k < left.len() && left[k] == again[i];
        rows.lemma_filter_pred(lacks, k);
        assert(lacks(left[k]));
    }
    lemma_nothing_to_deliver(settings, again);
}

/// What is left of a table that held `rows` once every row has been
/// deleted that `script` asks to delete.
pub open spec fn table_after(rows: Seq<MessageOutboxView>, script: Seq<ActionView>) -> Seq<
    MessageOutboxView,
> {
    rows.filter(|row: MessageOutboxView| !script.contains(ActionView::Delete(row.key())))
}

/// Whether the row of `rows` at `at` has the key `key` and an envelope.
pub open spec fn delivers_key(
    settings: WatcherView,
    rows: Seq<MessageOutboxView>,
    at: int,
    key: IdentityKeyView,
) -> bool {
    &&& 0 <= at < rows.len()
    &&& rows[at].key() == key
    &&& record_envelope(settings.encoder, rows[at], settings.namespace, settings.subject) is Ok
}

/// A replay asks to delete a key exactly where one of its rows has that key
/// and an envelope.
pub proof fn lemma_script_deletes(
    settings: WatcherView,
    rows: Seq<MessageOutboxView>,
    key: IdentityKeyView,
)
    ensures
        replay_script(settings, rows).contains(ActionView::Delete(key)) <==> exists|at: int|
            #[trigger] delivers_key(settings, rows, at, key),
    decreases rows.len(),
{
    let script = replay_script(settings, rows);
    let wanted = ActionView::Delete(key);
    if rows.len() == 0 {
        if script.contains(wanted) {
            let at = choose|at: int| 0 <= at < script.len() && script[at] == wanted;
            assert(script[0] == ActionView::AwaitNotification);
        }
    } else {
        let rest = rows.skip(1);
        let tail = replay_script(settings, rest);
        let first = record_envelope(settings.encoder, rows[0], settings.namespace, settings.subject)
            is Ok;
        lemma_script_deletes(settings, rest, key);
        if exists|at: int| #[trigger] delivers_key(settings, rows, at, key) {
            let at = choose|at: int| #[trigger] delivers_key(settings, rows, at, key);
            if at == 0 {
                assert(script[1] == wanted);
            } else {
                assert(rest[at - 1] == rows[at]);
                assert(delivers_key(settings, rest, at - 1, key));
                let found = choose|found: int| 0 <= found < tail.len() && tail[found] == wanted;
                if first {
                    assert(script[found + 2] == tail[found]);
                }
            }
            assert(script.contains(wanted));
        }
        if script.contains(wanted) {
            let found = choose|found: int| 0 <= found < script.len() && script[found] == wanted;
            if first && found < 2 {
                assert(delivers_key(settings, rows, 0, key));
            } else {
                if first {
                    assert(tail[found - 2] == script[found]);
                }
                assert(tail.contains(wanted));
                let at = choose|at: int| #[trigger] delivers_key(settings, rest, at, key);
                assert(rows[at + 1] == rest[at]);
                assert(delivers_key(settings, rows, at + 1, key));
            }
        }
    }
}

/// Two tests that agree on every row of `rows` keep the same rows.
pub proof fn lemma_filter_alike(
    rows: Seq<MessageOutboxView>,
    p: spec_fn(MessageOutboxView) -> bool,
    q: spec_fn(MessageOutboxView) -> bool,
)
    requires
        forall|i: int| 0 <= i < rows.len() ==> p(#[trigger] rows[i]) == q(rows[i]),
    ensures
        rows.filter(p) == rows.filter(q),
    decreases rows.len(),
{
    reveal(Seq::filter);
    if rows.len() > 0 {
        assert forall|i: int| 0 <= i < rows.drop_last().len() implies p(
            #[trigger] rows.drop_last()[i],
        ) == q(rows.drop_last()[i]) by {
            assert(rows.drop_last()[i] == rows[i]);
        }
        lemma_filter_alike(rows.drop_last(), p, q);
    }
}

/// Delete on success: after a replay of a table whose rows have distinct
/// keys, with every envelope and every delete confirmed, the table holds
/// exactly the rows that have no envelope. A table whose rows all have one
/// ends empty.
pub proof fn law_confirmed_replay_empties_table(settings: WatcherView, rows: Seq<
    MessageOutboxView,
>)
    requires
        distinct_keys(rows),
    ensures
        table_after(rows, replay_script(settings, replay_order(rows))) == left_over(
            settings,
            rows,
        ),
{
    let sorted = replay_order(rows);
    let script = replay_script(settings, sorted);
    let kept = |row: MessageOutboxView| !script.contains(ActionView::Delete(row.key()));
    let lacks = |row: MessageOutboxView|
        record_envelope(settings.encoder, row, settings.namespace, settings.subject) is Err;
    law_replay_order_keeps_rows(rows);
    assert forall|i: int| 0 <= i < rows.len() implies kept(#[trigger] rows[i]) == lacks(
        rows[i],
    ) by {
        let row = rows[i];
        lemma_script_deletes(settings, sorted, row.key());
        to_multiset_contains(rows, row);
        to_multiset_contains(sorted, row);
        assert(rows.contains(row));
        if !lacks(row) {
            let at = choose|at: int| 0 <= at < sorted.len() && sorted[at] == row;
            assert(delivers_key(settings, sorted, at, row.key()));
            assert(!kept(row));
        }
        if !kept(row) {
            let at = choose|at: int| #[trigger] delivers_key(settings, sorted, at, row.key());
            to_multiset_contains(rows, sorted[at]);
            to_multiset_contains(sorted, sorted[at]);
            assert(sorted.contains(sorted[at]));
            let back = choose|back: int| 0 <= back < rows.len() && rows[back] == sorted[at];
            if back != i {
                assert(rows[back].key() != rows[i].key());
            }
            assert(!lacks(row));
        }
    }
    lemma_filter_alike(rows, kept, lacks);
}

} // verus!
