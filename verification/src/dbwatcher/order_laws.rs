//! What holds of the order of replay.

use vstd::prelude::*;
use vstd::seq_lib::{to_multiset_contains, to_multiset_insert, to_multiset_len, to_multiset_remove};
use vstd::utf8::{decode_utf8, encode_utf8, encode_utf8_decode_utf8};
use crate::dbwatcher::order::{
    bytes_le,
    in_replay_order,
    replay_order,
    replays_before,
    slot,
    with_row,
    lemma_with_row_is_insert,
};
use crate::types::outbox::MessageOutboxView;

verus! {

/// Of two words over bytes one is at most the other.
pub proof fn lemma_bytes_le_total(a: Seq<u8>, b: Seq<u8>)
    ensures
        bytes_le(a, b) || bytes_le(b, a),
    decreases a.len(),
{
    if a.len() > 0 && b.len() > 0 && a[0] == b[0] {
        lemma_bytes_le_total(a.skip(1), b.skip(1));
    }
}

/// The order of words over bytes is transitive.
pub proof fn lemma_bytes_le_transitive(a: Seq<u8>, b: Seq<u8>, c: Seq<u8>)
    requires
        bytes_le(a, b),
        bytes_le(b, c),
    ensures
        bytes_le(a, c),
    decreases a.len(),
{
    if a.len() > 0 && b.len() > 0 && c.len() > 0 && a[0] == b[0] && b[0] == c[0] {
        lemma_bytes_le_transitive(a.skip(1), b.skip(1), c.skip(1));
    }
}

/// Two words over bytes that are each at most the other are the same word.
pub proof fn lemma_bytes_le_antisymmetric(a: Seq<u8>, b: Seq<u8>)
    requires
        bytes_le(a, b),
        bytes_le(b, a),
    ensures
        a == b,
    decreases a.len(),
{
    if a.len() > 0 && b.len() > 0 {
        lemma_bytes_le_antisymmetric(a.skip(1), b.skip(1));
        assert(a == seq![a[0]] + a.skip(1));
        assert(b == seq![b[0]] + b.skip(1));
    }
}

/// Of two rows one is replayed no later than the other.
pub proof fn lemma_replays_before_total(a: MessageOutboxView, b: MessageOutboxView)
    ensures
        replays_before(a, b) || replays_before(b, a),
{
    lemma_bytes_le_total(encode_utf8(a.chat_id), encode_utf8(b.chat_id));
}

/// The order of replay is transitive.
pub proof fn lemma_replays_before_transitive(
    a: MessageOutboxView,
    b: MessageOutboxView,
    c: MessageOutboxView,
)
    requires
        replays_before(a, b),
        replays_before(b, c),
    ensures
        replays_before(a, c),
{
    if a.created_at == b.created_at && b.created_at == c.created_at && a.sequence_number
        == b.sequence_number && b.sequence_number == c.sequence_number && a.epoch == b.epoch
        && b.epoch == c.epoch {
        lemma_bytes_le_transitive(
            encode_utf8(a.chat_id),
            encode_utf8(b.chat_id),
            encode_utf8(c.chat_id),
        );
    }
}

/// Two rows are tied in the order of replay only where they have the same
/// identity key and the same creation time.
pub proof fn lemma_tied_rows_share_their_key(a: MessageOutboxView, b: MessageOutboxView)
    requires
        replays_before(a, b),
        replays_before(b, a),
    ensures
        a.key() == b.key(),
        a.created_at == b.created_at,
{
    lemma_bytes_le_antisymmetric(encode_utf8(a.chat_id), encode_utf8(b.chat_id));
    encode_utf8_decode_utf8(a.chat_id);
    encode_utf8_decode_utf8(b.chat_id);
    assert(a.chat_id == decode_utf8(encode_utf8(a.chat_id)));
    assert(b.chat_id == decode_utf8(encode_utf8(b.chat_id)));
}

/// Putting a row into rows that are in the order of replay leaves them in
/// that order.
pub proof fn lemma_with_row_keeps_order(sorted: Seq<MessageOutboxView>, row: MessageOutboxView)
    requires
        in_replay_order(sorted),
    ensures
        in_replay_order(with_row(sorted, row)),
    decreases sorted.len(),
{
    lemma_with_row_is_insert(sorted, row);
    let at = slot(sorted, row);
    lemma_slot(sorted, row);
    let out = sorted.insert(at, row);
    assert forall|i: int, j: int| 0 <= i <= j < out.len() implies replays_before(
        out[i],
        out[j],
    ) by {
        if i == j {
            lemma_replays_before_total(out[i], out[i]);
        } else if j == at {
            assert(out[i] == sorted[i]);
            if i < at - 1 {
                lemma_replays_before_transitive(sorted[i], sorted[at - 1], row);
            }
        } else if i == at {
            assert(out[j] == sorted[j - 1]);
            lemma_replays_before_total(sorted[j - 1], row);
        } else {
            let si = if i < at {
                i
            } else {
                i - 1
            };
            let sj = if j < at {
                j
            } else {
                j - 1
            };
            assert(out[i] == sorted[si]);
            assert(out[j] == sorted[sj]);
        }
    }
}

/// The slot of a row lies behind a row that is replayed no later than it,
/// and before rows that are all replayed later.
pub proof fn lemma_slot(sorted: Seq<MessageOutboxView>, row: MessageOutboxView)
    ensures
        0 <= slot(sorted, row) <= sorted.len(),
        slot(sorted, row) > 0 ==> replays_before(sorted[slot(sorted, row) - 1], row),
        forall|k: int|
            slot(sorted, row) <= k < sorted.len() ==> !replays_before(#[trigger] sorted[k], row),
    decreases sorted.len(),
{
    if sorted.len() > 0 && !replays_before(sorted.last(), row) {
        lemma_slot(sorted.drop_last(), row);
        let at = slot(sorted.drop_last(), row);
        if at > 0 {
            assert(sorted.drop_last()[at - 1] == sorted[at - 1]);
        }
        assert forall|k: int| slot(sorted, row) <= k < sorted.len() implies !replays_before(
            #[trigger] sorted[k],
            row,
        ) by {
            if k < sorted.len() - 1 {
                assert(sorted.drop_last()[k] == sorted[k]);
            }
        }
    }
}

/// Order: whatever the order in which the table hands its rows over, they
/// are replayed oldest first.
pub proof fn law_replay_order_is_sorted(rows: Seq<MessageOutboxView>)
    ensures
        in_replay_order(replay_order(rows)),
    decreases rows.len(),
{
    if rows.len() > 0 {
        law_replay_order_is_sorted(rows.drop_last());
        lemma_with_row_keeps_order(replay_order(rows.drop_last()), rows.last());
    }
}

/// The replay holds the rows of the scan, each as often as the scan did:
/// none is lost and none is made up.
pub proof fn law_replay_order_keeps_rows(rows: Seq<MessageOutboxView>)
    ensures
        replay_order(rows).to_multiset() == rows.to_multiset(),
        replay_order(rows).len() == rows.len(),
    decreases rows.len(),
{
    to_multiset_len(rows);
    to_multiset_len(replay_order(rows));
    if rows.len() == 0 {
        assert(rows == Seq::<MessageOutboxView>::empty());
    } else {
        let head = rows.drop_last();
        law_replay_order_keeps_rows(head);
        lemma_with_row_is_insert(replay_order(head), rows.last());
        to_multiset_insert(replay_order(head), slot(replay_order(head), rows.last()), rows.last());
        to_multiset_insert(head, head.len() as int, rows.last());
        assert(head.insert(head.len() as int, rows.last()) == rows);
    }
}

/// Whether no two rows of `rows` have the same identity key.
pub open spec fn distinct_keys(rows: Seq<MessageOutboxView>) -> bool {
    forall|i: int, j: int|
        0 <= i < rows.len() && 0 <= j < rows.len() && i != j ==> (#[trigger] rows[i]).key() != (
        #[trigger] rows[j]).key()
}

/// Rows with distinct keys can be brought into the order of replay in one
/// way only.
pub proof fn lemma_sorted_rows_are_unique(a: Seq<MessageOutboxView>, b: Seq<MessageOutboxView>)
    requires
        in_replay_order(a),
        in_replay_order(b),
        a.to_multiset() == b.to_multiset(),
        distinct_keys(a),
    ensures
        a == b,
    decreases a.len(),
{
    to_multiset_len(a);
    to_multiset_len(b);
    if a.len() == 0 {
        assert(a == b);
    } else {
        // The first row of each sequence occurs in the other.
        to_multiset_contains(a, b[0]);
        to_multiset_contains(b, b[0]);
        to_multiset_contains(a, a[0]);
        to_multiset_contains(b, a[0]);
        assert(b.contains(b[0]));
        assert(a.contains(a[0]));
        let m = choose|m: int| 0 <= m < a.len() && a[m] == b[0];
        let k = choose|k: int| 0 <= k < b.len() && b[k] == a[0];
        assert(replays_before(a[0], a[m]));
        assert(replays_before(b[0], b[k]));
        lemma_tied_rows_share_their_key(a[0], b[0]);
        if m != 0 {
            assert(a[0].key() != a[m].key());
        }
        assert(a[0] == b[0]);
        to_multiset_remove(a, 0);
        to_multiset_remove(b, 0);
        assert(a.remove(0) == a.skip(1));
        assert(b.remove(0) == b.skip(1));
        let ta = a.skip(1);
        let tb = b.skip(1);
        assert forall|i: int, j: int| 0 <= i <= j < ta.len() implies replays_before(
            ta[i],
            ta[j],
        ) by {
            assert(ta[i] == a[i + 1] && ta[j] == a[j + 1]);
        }
        assert forall|i: int, j: int| 0 <= i <= j < tb.len() implies replays_before(
            tb[i],
            tb[j],
        ) by {
            assert(tb[i] == b[i + 1] && tb[j] == b[j + 1]);
        }
        assert forall|i: int, j: int|
            0 <= i < ta.len() && 0 <= j < ta.len() && i != j implies (#[trigger] ta[i]).key() != (
        #[trigger] ta[j]).key() by {
            assert(ta[i] == a[i + 1] && ta[j] == a[j + 1]);
        }
        lemma_sorted_rows_are_unique(ta, tb);
        assert(a == seq![a[0]] + ta);
        assert(b == seq![b[0]] + tb);
    }
}

/// Rearranging rows does not change whether their keys are distinct.
pub proof fn lemma_distinct_keys_of_same_rows(a: Seq<MessageOutboxView>, b: Seq<MessageOutboxView>)
    requires
        a.to_multiset() == b.to_multiset(),
        distinct_keys(a),
    ensures
        distinct_keys(b),
{
    assert forall|i: int, j: int|
        0 <= i < b.len() && 0 <= j < b.len() && i != j implies (#[trigger] b[i]).key() != (
    #[trigger] b[j]).key() by {
        if b[i].key() == b[j].key() {
            to_multiset_contains(a, b[i]);
            to_multiset_contains(b, b[i]);
            to_multiset_contains(a, b[j]);
            to_multiset_contains(b, b[j]);
            assert(b.contains(b[i]));
            assert(b.contains(b[j]));
            let x = choose|x: int| 0 <= x < a.len() && a[x] == b[i];
            let y = choose|y: int| 0 <= y < a.len() && a[y] == b[j];
            if x == y {
                // The same row stands twice in `b`, so it stands twice in `a`.
                let (lo, hi) = if i < j {
                    (i, j)
                } else {
                    (j, i)
                };
                to_multiset_remove(b, hi);
                to_multiset_remove(a, x);
                to_multiset_contains(b.remove(hi), b[lo]);
                to_multiset_contains(a.remove(x), b[lo]);
                assert(b.remove(hi)[lo] == b[lo]);
                assert(b.remove(hi).contains(b[lo]));
                let z = choose|z: int| 0 <= z < a.remove(x).len() && a.remove(x)[z] == b[lo];
                let other = if z < x {
                    z
                } else {
                    z + 1
                };
                assert(a[other] == a.remove(x)[z]);
                assert(other != x);
                assert(a[other].key() != a[x].key());
            } else {
                assert(a[x].key() != a[y].key());
            }
        }
    }
}

/// Order, not insertion: two scans that hand over the same rows in whatever
/// order, no two with the same identity key, are replayed alike.
pub proof fn law_replay_order_ignores_scan_order(
    a: Seq<MessageOutboxView>,
    b: Seq<MessageOutboxView>,
)
    requires
        a.to_multiset() == b.to_multiset(),
        distinct_keys(a),
    ensures
        replay_order(a) == replay_order(b),
{
    law_replay_order_is_sorted(a);
    law_replay_order_is_sorted(b);
    law_replay_order_keeps_rows(a);
    law_replay_order_keeps_rows(b);
    lemma_distinct_keys_of_same_rows(a, replay_order(a));
    lemma_sorted_rows_are_unique(replay_order(a), replay_order(b));
}

} // verus!
