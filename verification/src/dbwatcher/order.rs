//! The order in which a backlog is replayed.
//!
//! Rows are replayed oldest first: by creation time, then by sequence
//! number, then by epoch (a row without one first), then by chat id, byte by
//! byte. Two rows that differ in their identity key are never tied, so the
//! order in which the table hands the rows over does not matter.

use vstd::prelude::*;
use vstd::utf8::encode_utf8;
use crate::dbwatcher::order_laws::{law_replay_order_is_sorted, law_replay_order_keeps_rows};
use crate::types::outbox::{MessageOutbox, MessageOutboxView};

verus! {

/// Whether `a` is at most `b`, read as words over bytes.
pub open spec fn bytes_le(a: Seq<u8>, b: Seq<u8>) -> bool
    decreases a.len(),
{
    if a.len() == 0 {
        true
    } else if b.len() == 0 {
        false
    } else if a[0] != b[0] {
        a[0] < b[0]
    } else {
        bytes_le(a.skip(1), b.skip(1))
    }
}

/// Whether an epoch `a` is at most an epoch `b`: a row without an epoch
/// comes first.
pub open spec fn epoch_le(a: Option<i64>, b: Option<i64>) -> bool {
    match (a, b) {
        (None, _) => true,
        (Some(_), None) => false,
        (Some(x), Some(y)) => x <= y,
    }
}

/// Whether `a` is replayed no later than `b`.
pub open spec fn replays_before(a: MessageOutboxView, b: MessageOutboxView) -> bool {
    if a.created_at.seconds != b.created_at.seconds {
        a.created_at.seconds < b.created_at.seconds
    } else if a.created_at.nanos != b.created_at.nanos {
        a.created_at.nanos < b.created_at.nanos
    } else if a.sequence_number != b.sequence_number {
        a.sequence_number < b.sequence_number
    } else if a.epoch != b.epoch {
        epoch_le(a.epoch, b.epoch)
    } else {
        bytes_le(encode_utf8(a.chat_id), encode_utf8(b.chat_id))
    }
}

/// Whether every row of `rows` is replayed no later than the rows after it.
pub open spec fn in_replay_order(rows: Seq<MessageOutboxView>) -> bool {
    forall|i: int, j: int| 0 <= i <= j < rows.len() ==> replays_before(rows[i], rows[j])
}

/// `sorted` with `row` put behind the last row that is replayed no later
/// than it.
pub open spec fn with_row(sorted: Seq<MessageOutboxView>, row: MessageOutboxView) -> Seq<
    MessageOutboxView,
>
    decreases sorted.len(),
{
    if sorted.len() == 0 {
        seq![row]
    } else if replays_before(sorted.last(), row) {
        sorted.push(row)
    } else {
        with_row(sorted.drop_last(), row).push(sorted.last())
    }
}

/// The rows in the order in which they are replayed.
pub open spec fn replay_order(rows: Seq<MessageOutboxView>) -> Seq<MessageOutboxView>
    decreases rows.len(),
{
    if rows.len() == 0 {
        Seq::<MessageOutboxView>::empty()
    } else {
        with_row(replay_order(rows.drop_last()), rows.last())
    }
}

/// The mathematical values of a vector of rows.
pub open spec fn rows_view(rows: Seq<MessageOutbox>) -> Seq<MessageOutboxView> {
    Seq::new(rows.len(), |i: int| rows[i]@)
}

/// Whether `a` is at most `b`, read as words over bytes.
pub fn bytes_at_most(a: &[u8], b: &[u8]) -> (le: bool)
    ensures
        le == bytes_le(a@, b@),
{
    let mut i: usize = 0;
    proof {
        assert(a@.skip(0) == a@);
        assert(b@.skip(0) == b@);
    }
    while i < a.len() && i < b.len()
        invariant
            i <= a@.len(),
            i <= b@.len(),
            bytes_le(a@, b@) == bytes_le(a@.skip(i as int), b@.skip(i as int)),
        decreases a@.len() - i,
    {
        proof {
            assert(a@.skip(i as int).skip(1) == a@.skip(i + 1));
            assert(b@.skip(i as int).skip(1) == b@.skip(i + 1));
        }
        if a[i] != b[i] {
            return a[i] < b[i];
        }
        i += 1;
    }
    i == a.len()
}

/// Whether `a` is replayed no later than `b`.
pub fn comes_no_later(a: &MessageOutbox, b: &MessageOutbox) -> (le: bool)
    ensures
        le == replays_before(a@, b@),
{
    if a.created_at.seconds != b.created_at.seconds {
        return a.created_at.seconds < b.created_at.seconds;
    }
    if a.created_at.nanos != b.created_at.nanos {
        return a.created_at.nanos < b.created_at.nanos;
    }
    if a.sequence_number != b.sequence_number {
        return a.sequence_number < b.sequence_number;
    }
    match (a.epoch, b.epoch) {
        (None, None) => {},
        (None, Some(_)) => {
            return true;
        },
        (Some(_), None) => {
            return false;
        },
        (Some(x), Some(y)) => {
            if x != y {
                return x < y;
            }
        },
    }
    bytes_at_most(a.chat_id.as_str().as_bytes(), b.chat_id.as_str().as_bytes())
}

/// Where `row` goes into `sorted`: behind the last row that is replayed no
/// later than it.
pub open spec fn slot(sorted: Seq<MessageOutboxView>, row: MessageOutboxView) -> int
    decreases sorted.len(),
{
    if sorted.len() == 0 || replays_before(sorted.last(), row) {
        sorted.len() as int
    } else {
        slot(sorted.drop_last(), row)
    }
}

/// [`with_row`] puts the row at its [`slot`] and moves nothing else.
pub proof fn lemma_with_row_is_insert(sorted: Seq<MessageOutboxView>, row: MessageOutboxView)
    ensures
        0 <= slot(sorted, row) <= sorted.len(),
        with_row(sorted, row) == sorted.insert(slot(sorted, row), row),
    decreases sorted.len(),
{
    if sorted.len() > 0 && !replays_before(sorted.last(), row) {
        lemma_with_row_is_insert(sorted.drop_last(), row);
    }
}

/// Puts `row` into `sorted`, behind the last row that is replayed no later
/// than it.
pub fn insert_row(sorted: &mut Vec<MessageOutbox>, row: MessageOutbox)
    ensures
        rows_view(final(sorted)@) == with_row(rows_view(old(sorted)@), row@),
{
    let ghost before = rows_view(sorted@);
    let mut at: usize = sorted.len();
    proof {
        assert(before.subrange(0, at as int) == before);
    }
    while at > 0 && !comes_no_later(&sorted[at - 1], &row)
        invariant
            at <= sorted@.len(),
            sorted@ == old(sorted)@,
            before == rows_view(sorted@),
            slot(before, row@) == slot(before.subrange(0, at as int), row@),
        decreases at,
    {
        proof {
            assert(before.subrange(0, at as int).drop_last() == before.subrange(0, at - 1));
        }
        at -= 1;
    }
    proof {
        lemma_with_row_is_insert(before, row@);
    }
    sorted.insert(at, row);
}

/// Brings the rows of a backlog into the order in which they are replayed.
/// Rows that are tied stay in the order in which they came. A backlog that
/// comes in order is passed through in linear time.
pub fn sort_backlog(rows: Vec<MessageOutbox>) -> (sorted: Vec<MessageOutbox>)
    ensures
        rows_view(sorted@) == replay_order(rows_view(rows@)),
        in_replay_order(rows_view(sorted@)),
        rows_view(sorted@).to_multiset() == rows_view(rows@).to_multiset(),
{
    let ghost all = rows_view(rows@);
    let mut sorted: Vec<MessageOutbox> = Vec::new();
    for row in it: rows.into_iter()
        invariant
            it.seq() == rows@,
            all == rows_view(rows@),
            rows_view(sorted@) == replay_order(all.subrange(0, it.index() as int)),
    {
        proof {
            let done = it.index() as int;
            assert(all.subrange(0, done + 1).drop_last() == all.subrange(0, done));
        }
        insert_row(&mut sorted, row);
    }
    proof {
        assert(all.subrange(0, all.len() as int) == all);
        law_replay_order_is_sorted(all);
        law_replay_order_keeps_rows(all);
    }
    sorted
}

} // verus!
