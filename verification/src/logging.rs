//! Which directives the relay's log filter is made of.

use vstd::prelude::*;
use vstd::string::StrSliceExecFns;
use vstd::string::StringExecFns;
use vstd::utf8::is_ascii_chars;

verus! {

/// The directives that hold whatever the environment says: the relay's own
/// level, and a cap on the chatter of the HTTP stack.
pub open spec fn default_directives(level: Seq<char>) -> Seq<Seq<char>> {
    seq![level, "hyper_util=info"@, "hyper=info"@, "h2=info"@]
}

/// The pieces of `text` between its commas. A text without a comma is one
/// piece, and so is the empty text.
pub open spec fn split_commas(text: Seq<char>) -> Seq<Seq<char>>
    decreases text.len(),
{
    if text.len() == 0 {
        seq![Seq::<char>::empty()]
    } else {
        let head = split_commas(text.drop_last());
        if text.last() == ',' {
            head.push(Seq::<char>::empty())
        } else {
            head.drop_last().push(head.last().push(text.last()))
        }
    }
}

/// The directives of the filter, in the order in which they are applied:
/// the defaults, then those of the environment, which win.
pub open spec fn directives(level: Seq<char>, env: Option<Seq<char>>) -> Seq<Seq<char>> {
    match env {
        Some(text) => if text.len() > 0 {
            default_directives(level) + split_commas(text)
        } else {
            default_directives(level)
        },
        None => default_directives(level),
    }
}

/// The mathematical values of a vector of strings.
pub open spec fn texts(strings: Seq<String>) -> Seq<Seq<char>> {
    Seq::new(strings.len(), |i: int| strings[i]@)
}

/// Appends the pieces of `text` between its commas to `pieces`.
pub fn push_split(pieces: &mut Vec<String>, text: &str)
    ensures
        texts(final(pieces)@) == texts(old(pieces)@) + split_commas(text@),
{
    let ghost before = texts(pieces@);
    let ghost mut found: Seq<Seq<char>> = Seq::empty();
    let len = text.unicode_len();
    let mut start: usize = 0;
    let mut at: usize = 0;
    proof {
        assert(text@.subrange(0, 0) == Seq::<char>::empty());
    }
    while at < len
        invariant
            len == text@.len(),
            start <= at <= len,
            texts(pieces@) == before + found,
            split_commas(text@.subrange(0, at as int)) == found.push(
                text@.subrange(start as int, at as int),
            ),
        decreases len - at,
    {
        let ghost prefix = text@.subrange(0, at + 1);
        proof {
            assert(prefix.drop_last() == text@.subrange(0, at as int));
        }
        if text.get_char(at) == ',' {
            let piece = String::from_str(text.substring_char(start, at));
            proof {
                assert((before + found).push(piece@) == before + found.push(piece@));
                found = found.push(piece@);
                assert(text@.subrange(at + 1, at + 1) == Seq::<char>::empty());
            }
            pieces.push(piece);
            start = at + 1;
        } else {
            proof {
                let head = found.push(text@.subrange(start as int, at as int));
                assert(head.last().push(text@[at as int]) == text@.subrange(
                    start as int,
                    at + 1,
                ));
            }
        }
        at += 1;
    }
    let piece = String::from_str(text.substring_char(start, len));
    proof {
        assert(text@.subrange(0, len as int) == text@);
        assert((before + found).push(piece@) == before + found.push(piece@));
    }
    pieces.push(piece);
}

/// The directives of the relay's log filter, in the order in which they are
/// applied: first the level and the defaults, then what the environment
/// asks for, piece by piece.
pub fn filter_directives(level: &str, env: Option<&str>) -> (list: Vec<String>)
    ensures
        texts(list@) == directives(
            level@,
            match env {
                Some(text) => Some(text@),
                None => None,
            },
        ),
{
    let mut list: Vec<String> = Vec::new();
    list.push(String::from_str(level));
    list.push(String::from_str("hyper_util=info"));
    list.push(String::from_str("hyper=info"));
    list.push(String::from_str("h2=info"));
    match env {
        Some(text) => {
            if text.unicode_len() > 0 {
                push_split(&mut list, text);
            }
        },
        None => {},
    }
    list
}

/// Whether `tracing_subscriber` reads `text` as a directive of a filter.
pub uninterp spec fn directive_parses(text: Seq<char>) -> bool;

/// Calls `FromStr::from_str` of `tracing_subscriber::filter::Directive`.
/// The contract names whether the call succeeded [`directive_parses`] of the
/// text. The parser cuts the text at places that it has counted in the
/// trimmed text; in a text that is not ASCII such a cut can fall inside a
/// character, where the call panics, so the `requires` admits ASCII only.
#[verifier::external_body]
pub(crate) fn parses_as_directive(text: &str) -> (ok: bool)
    requires
        is_ascii_chars(text@),
    ensures
        ok == directive_parses(text@),
{
    <tracing_subscriber::filter::Directive as core::str::FromStr>::from_str(text).is_ok()
}

/// Whether the filter takes `text` as a directive: it is ASCII, and the
/// filter's parser reads it.
pub open spec fn directive_is_valid(text: Seq<char>) -> bool {
    is_ascii_chars(text) && directive_parses(text)
}

/// The place of the first directive in `list` that the filter does not
/// take; `None` where it takes them all.
pub fn first_invalid(list: &Vec<String>) -> (at: Option<usize>)
    ensures
        match at {
            Some(found) => found < list@.len() && !directive_is_valid(list@[found as int]@)
                && forall|i: int|
                0 <= i < found ==> directive_is_valid((#[trigger] list@[i])@),
            None => forall|i: int|
                0 <= i < list@.len() ==> directive_is_valid((#[trigger] list@[i])@),
        },
{
    let mut at: usize = 0;
    while at < list.len()
        invariant
            at <= list@.len(),
            forall|i: int| 0 <= i < at ==> directive_is_valid((#[trigger] list@[i])@),
        decreases list@.len() - at,
    {
        let text = list[at].as_str();
        if !text.is_ascii() || !parses_as_directive(text) {
            return Some(at);
        }
        at += 1;
    }
    None
}

/// How much a line of the log matters.
#[derive(Debug, Clone, Copy, PartialEq, Eq, Structural)]
pub enum LogLevel {
    Trace,
    Debug,
    Info,
    Warn,
    Error,
}

/// What is left of `text` behind the last `::` that is found from `at` on,
/// reading from left to right, where `start` is the end of the last one
/// found so far.
pub open spec fn last_segment_from(text: Seq<char>, at: int, start: int) -> Seq<char>
    decreases text.len() - at,
{
    if at < 0 || at + 1 >= text.len() {
        text.subrange(start, text.len() as int)
    } else if text[at] == ':' && text[at + 1] == ':' {
        last_segment_from(text, at + 2, at + 2)
    } else {
        last_segment_from(text, at + 1, start)
    }
}

/// The last part of a path of modules: what stands behind its last `::`.
pub open spec fn last_segment(path: Seq<char>) -> Seq<char> {
    last_segment_from(path, 0, 0)
}

/// The name under which a line of the log shows where it comes from: for
/// lines of level info and above the last part of the module path, for the
/// others the whole path.
pub open spec fn shown_target(level: LogLevel, target: Seq<char>) -> Seq<char> {
    match level {
        LogLevel::Info | LogLevel::Warn | LogLevel::Error => last_segment(target),
        _ => target,
    }
}

/// The name under which a line of the log shows where it comes from.
pub fn target_shown<'a>(level: LogLevel, target: &'a str) -> (shown: &'a str)
    ensures
        shown@ == shown_target(level, target@),
{
    match level {
        LogLevel::Trace | LogLevel::Debug => {
            return target;
        },
        _ => {},
    }
    let len = target.unicode_len();
    let mut start: usize = 0;
    let mut at: usize = 0;
    while at < len && at + 1 < len
        invariant
            len == target@.len(),
            start <= at <= len,
            last_segment(target@) == last_segment_from(target@, at as int, start as int),
        decreases len - at,
    {
        if target.get_char(at) == ':' && target.get_char(at + 1) == ':' {
            at += 2;
            start = at;
        } else {
            at += 1;
        }
    }
    target.substring_char(start, len)
}

} // verus!
