use message_relay::dbwatcher::order::{bytes_at_most, comes_no_later, insert_row, sort_backlog};
use message_relay::dbwatcher::watcher::{find_note, rows_of, Delivery};
use message_relay::dbwatcher::{ScanItem, WatcherOutcome, WatcherError};
use message_relay::logging::{
    filter_directives, first_invalid, push_split, target_shown, LogLevel,
};
use message_relay::text::{decimal, digit, natural};
use message_relay::types::{IdentityKey, MessageOutbox, Timestamp};

fn row(chat_id: &str, sequence_number: i64, seconds: i64) -> MessageOutbox {
    MessageOutbox {
        content: vec![],
        created_at: Timestamp { seconds, nanos: 0 },
        sequence_number,
        epoch: None,
        chat_id: chat_id.to_string(),
    }
}

#[test]
fn numbers_are_written_in_decimal() {
    assert_eq!(digit(0), "0");
    assert_eq!(digit(9), "9");
    assert_eq!(natural(0), "0");
    assert_eq!(natural(10), "10");
    assert_eq!(natural(u64::MAX), "18446744073709551615");
    assert_eq!(decimal(0), "0");
    assert_eq!(decimal(5), "5");
    assert_eq!(decimal(-1), "-1");
    assert_eq!(decimal(1_234_567_890), "1234567890");
    assert_eq!(decimal(i64::MAX), "9223372036854775807");
    assert_eq!(decimal(i64::MIN), "-9223372036854775808");
}

#[test]
fn a_row_is_shown_in_one_line() {
    let shown = MessageOutbox {
        content: b"hello".to_vec(),
        created_at: Timestamp { seconds: 1_431_648_000, nanos: 0 },
        sequence_number: 5,
        epoch: Some(-3),
        chat_id: "67e55044-10b1-426f-9247-bb680e5fe0c8".to_string(),
    }
    .describe();
    assert_eq!(
        shown,
        "{ content: aGVsbG8=, created_at: 2015-05-15 00:00:00 UTC, sequence_number: 5, \
         epoch: -3, chat_id: 67e55044-10b1-426f-9247-bb680e5fe0c8 }"
    );
}

#[test]
fn a_row_without_epoch_or_date_is_shown_too() {
    let shown = MessageOutbox {
        content: vec![],
        created_at: Timestamp { seconds: i64::MAX, nanos: 0 },
        sequence_number: -7,
        epoch: None,
        chat_id: "chat-1".to_string(),
    }
    .describe();
    assert_eq!(
        shown,
        "{ content: , created_at: (out of range), sequence_number: -7, epoch: none, \
         chat_id: chat-1 }"
    );
}

#[test]
fn the_key_of_a_row_is_its_chat_number_and_epoch() {
    let mut with_epoch = row("chat-1", 5, 9);
    with_epoch.epoch = Some(2);
    assert_eq!(
        with_epoch.key(),
        IdentityKey { chat_id: "chat-1".to_string(), sequence_number: 5, epoch: Some(2) }
    );
    assert_eq!(with_epoch.duplicate(), with_epoch);
}

#[test]
fn words_over_bytes_are_ordered_like_a_dictionary() {
    assert!(bytes_at_most(b"", b""));
    assert!(bytes_at_most(b"", b"a"));
    assert!(!bytes_at_most(b"a", b""));
    assert!(bytes_at_most(b"a", b"a"));
    assert!(bytes_at_most(b"a", b"ab"));
    assert!(!bytes_at_most(b"ab", b"a"));
    assert!(bytes_at_most(b"ab", b"b"));
    assert!(!bytes_at_most(b"b", b"ab"));
    assert!(bytes_at_most(&[0x7f], &[0x80]));
}

#[test]
fn older_rows_come_first() {
    assert!(comes_no_later(&row("b", 9, 1), &row("a", 1, 2)));
    assert!(!comes_no_later(&row("a", 1, 2), &row("b", 9, 1)));
    assert!(comes_no_later(&row("b", 1, 1), &row("a", 2, 1)));
    assert!(comes_no_later(&row("a", 1, 1), &row("b", 1, 1)));
    assert!(!comes_no_later(&row("b", 1, 1), &row("a", 1, 1)));
    assert!(comes_no_later(&row("a", 1, 1), &row("a", 1, 1)));
    let mut some = row("a", 1, 1);
    some.epoch = Some(i64::MIN);
    assert!(comes_no_later(&row("z", 1, 1), &some));
    assert!(!comes_no_later(&some, &row("a", 1, 1)));
    let mut later = row("a", 0, 1);
    later.created_at.nanos = 1;
    assert!(comes_no_later(&row("z", 9, 1), &later));
    assert!(!comes_no_later(&later, &row("z", 9, 1)));
}

#[test]
fn a_backlog_is_sorted_and_ties_keep_their_order() {
    assert_eq!(sort_backlog(vec![]), vec![]);
    let mut first = row("a", 1, 5);
    first.content = vec![1];
    let mut second = row("a", 1, 5);
    second.content = vec![2];
    let sorted = sort_backlog(vec![
        row("a", 3, 9),
        first.clone(),
        row("a", 0, 1),
        second.clone(),
    ]);
    assert_eq!(sorted, vec![row("a", 0, 1), first, second, row("a", 3, 9)]);
    let mut rows = vec![row("a", 1, 1), row("a", 3, 3)];
    insert_row(&mut rows, row("a", 2, 2));
    insert_row(&mut rows, row("a", 0, 0));
    insert_row(&mut rows, row("a", 4, 4));
    assert_eq!(
        rows,
        vec![row("a", 0, 0), row("a", 1, 1), row("a", 2, 2), row("a", 3, 3), row("a", 4, 4)]
    );
}

#[test]
fn notes_are_found_by_key_and_time() {
    let notes = vec![
        Delivery::of(&row("a", 1, 1)),
        Delivery::of(&row("b", 1, 1)),
        Delivery::of(&row("a", 1, 1)),
    ];
    assert_eq!(find_note(&notes, &Delivery::of(&row("a", 1, 1))), 0);
    assert_eq!(find_note(&notes, &Delivery::of(&row("b", 1, 1))), 1);
    assert_eq!(find_note(&notes, &Delivery::of(&row("b", 1, 2))), 3);
    assert_eq!(find_note(&notes, &Delivery::of(&row("b", 2, 1))), 3);
    let mut other = row("b", 1, 1);
    other.epoch = Some(0);
    assert_eq!(find_note(&notes, &Delivery::of(&other)), 3);
    assert!(Delivery::of(&other).same(&Delivery::of(&other)));
    assert!(!Delivery::of(&other).same(&Delivery::of(&row("b", 1, 1))));
}

#[test]
fn only_rows_are_taken_from_a_scan() {
    assert_eq!(rows_of(vec![]), vec![]);
    assert_eq!(
        rows_of(vec![
            ScanItem::Unreadable,
            ScanItem::Row(row("a", 2, 2)),
            ScanItem::Row(row("a", 1, 1)),
            ScanItem::Unreadable,
        ]),
        vec![row("a", 2, 2), row("a", 1, 1)]
    );
}

#[test]
fn only_a_clean_return_is_no_failure() {
    assert!(!WatcherOutcome::Completed.failed());
    assert!(WatcherOutcome::StreamClosed.failed());
    for error in [
        WatcherError::Subscribe,
        WatcherError::Scan,
        WatcherError::Publish,
        WatcherError::Delete,
        WatcherError::Protocol,
    ] {
        assert!(WatcherOutcome::Failed(error).failed());
    }
}

#[test]
fn the_filter_starts_with_the_defaults() {
    assert_eq!(
        filter_directives("INFO", None),
        vec!["INFO", "hyper_util=info", "hyper=info", "h2=info"]
    );
    assert_eq!(
        filter_directives("DEBUG", Some("")),
        vec!["DEBUG", "hyper_util=info", "hyper=info", "h2=info"]
    );
}

#[test]
fn the_environment_adds_its_directives_piece_by_piece() {
    assert_eq!(
        filter_directives("WARN", Some("relay=trace,h2=off")),
        vec!["WARN", "hyper_util=info", "hyper=info", "h2=info", "relay=trace", "h2=off"]
    );
    assert_eq!(
        filter_directives("WARN", Some(",a,,b\u{e9},")),
        vec!["WARN", "hyper_util=info", "hyper=info", "h2=info", "", "a", "", "b\u{e9}", ""]
    );
    let mut pieces = vec!["x".to_string()];
    push_split(&mut pieces, "");
    assert_eq!(pieces, vec!["x", ""]);
    for text in ["a", "a,b", ",", "a,,", "no commas here"] {
        let mut pieces = Vec::new();
        push_split(&mut pieces, text);
        let expected: Vec<String> = text.split(',').map(|s| s.to_string()).collect();
        assert_eq!(pieces, expected);
    }
}

#[test]
fn lines_that_matter_show_the_last_module_only() {
    for level in [LogLevel::Info, LogLevel::Warn, LogLevel::Error] {
        assert_eq!(target_shown(level, "message_relay::dbwatcher"), "dbwatcher");
        assert_eq!(target_shown(level, "relay"), "relay");
        assert_eq!(target_shown(level, ""), "");
        assert_eq!(target_shown(level, "a::b::c"), "c");
        assert_eq!(target_shown(level, "a::"), "");
        assert_eq!(target_shown(level, "a:::b"), ":b");
        assert_eq!(target_shown(level, "a::::b"), "b");
        assert_eq!(target_shown(level, "\u{e9}::\u{e8}:"), "\u{e8}:");
    }
    for level in [LogLevel::Trace, LogLevel::Debug] {
        assert_eq!(target_shown(level, "message_relay::dbwatcher"), "message_relay::dbwatcher");
    }
    for text in ["a::b", "::", ":::", "::::", "x::y::", ":a:b::c:"] {
        assert_eq!(
            target_shown(LogLevel::Info, text),
            text.split("::").last().unwrap_or_default()
        );
    }
}

#[test]
fn a_stored_chat_id_is_written_as_a_uuid() {
    let chat = [
        0xa1, 0xa2, 0xa3, 0xa4, 0xb1, 0xb2, 0xc1, 0xc2, 0xd1, 0xd2, 0xd3, 0xd4, 0xd5, 0xd6, 0xd7,
        0xd8,
    ];
    let stored = MessageOutbox::from_stored(
        b"hello".to_vec(),
        Timestamp { seconds: 7, nanos: 8 },
        5,
        2,
        &chat,
    );
    assert_eq!(
        stored,
        MessageOutbox {
            content: b"hello".to_vec(),
            created_at: Timestamp { seconds: 7, nanos: 8 },
            sequence_number: 5,
            epoch: Some(2),
            chat_id: "a1a2a3a4-b1b2-c1c2-d1d2-d3d4d5d6d7d8".to_string(),
        }
    );
    assert_eq!(stored.key().chat_uuid(), Some(chat));
    assert_eq!(
        MessageOutbox::from_stored(vec![], Timestamp { seconds: 0, nanos: 0 }, 0, 0, &[0; 16])
            .chat_id,
        "00000000-0000-0000-0000-000000000000"
    );
}

#[test]
fn a_chat_id_that_is_no_uuid_has_no_bytes() {
    assert_eq!(row("chat-1", 5, 1).key().chat_uuid(), None);
    assert_eq!(row("", 5, 1).key().chat_uuid(), None);
    assert_eq!(
        row("67E55044-10B1-426F-9247-BB680E5FE0C8", 5, 1).key().chat_uuid(),
        Some([
            0x67, 0xe5, 0x50, 0x44, 0x10, 0xb1, 0x42, 0x6f, 0x92, 0x47, 0xbb, 0x68, 0x0e, 0x5f,
            0xe0, 0xc8
        ])
    );
}

#[test]
fn the_first_directive_that_the_filter_refuses_is_found() {
    let list = |items: &[&str]| -> Vec<String> { items.iter().map(|s| s.to_string()).collect() };
    assert_eq!(first_invalid(&list(&[])), None);
    assert_eq!(
        first_invalid(&list(&["INFO", "hyper_util=info", "hyper=info", "h2=info"])),
        None
    );
    assert_eq!(
        first_invalid(&list(&["debug", "relay::dbwatcher=trace", "[span]=warn", "h2=off"])),
        None
    );
    assert_eq!(first_invalid(&list(&["info", ""])), Some(1));
    assert_eq!(first_invalid(&list(&["info", "relay=loud", "=,="])), Some(1));
    assert_eq!(first_invalid(&list(&["=info"])), Some(0));
    assert_eq!(first_invalid(&list(&["info", "h2=off", "[span"])), Some(2));
    assert_eq!(first_invalid(&list(&["info", " \u{e9}=info"])), Some(1));
    assert_eq!(first_invalid(&filter_directives("WARN", Some("relay=trace,h2=off"))), None);
    assert_eq!(first_invalid(&filter_directives("WARN", Some("relay=trace,h2=no"))), Some(5));
}
