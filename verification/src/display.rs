//! How a snippet is shown in a listing: a short preview of its content and
//! the time it was made at.

use crate::tags::{at_most, first};
use crate::text::{
    chars_of, concat3, join, join_with, rows, slice_of, split, split_on, string_of,
};
use crate::utils::byte_len;
use vstd::prelude::*;

verus! {

/// The most lines of a content that a preview shows.
pub const PREVIEW_LINES: usize = 3;

/// The most characters that a preview shows.
pub const PREVIEW_CHARS: usize = 60;

/// A line without the carriage return at its end, if it has one.
pub open spec fn without_return(line: Seq<char>) -> Seq<char> {
    if line.len() > 0 && line.last() == '\r' {
        line.drop_last()
    } else {
        line
    }
}

/// The lines of a text. A line ends at a line feed, or at a carriage return
/// that a line feed follows; the line ending is no part of the line. What
/// stands after the last line feed is a line too, unless it is empty.
pub open spec fn lines_of(s: Seq<char>) -> Seq<Seq<char>> {
    let pieces = split_on(s, '\n');
    let ended = pieces.drop_last().map_values(|p: Seq<char>| without_return(p));
    if pieces.last().len() == 0 {
        ended
    } else {
        ended.push(pieces.last())
    }
}

/// The first characters of a text, or all of it where it has no more.
pub open spec fn head_of(s: Seq<char>, n: nat) -> Seq<char> {
    if s.len() > n {
        s.take(n as int)
    } else {
        s
    }
}

/// The first three lines of a content on one line, cut after sixty
/// characters.
pub open spec fn preview_head(content: Seq<char>) -> Seq<char> {
    head_of(join(at_most(lines_of(content), PREVIEW_LINES as nat), seq![' ']), PREVIEW_CHARS as nat)
}

/// The preview of a content: its head, with three dots behind it where the
/// head takes fewer bytes than the content.
pub open spec fn preview_of(content: Seq<char>) -> Seq<char> {
    if byte_len(preview_head(content)) < byte_len(content) {
        preview_head(content) + "..."@
    } else {
        preview_head(content)
    }
}

/// The lines of a text.
pub fn lines(v: &Vec<char>) -> (r: Vec<Vec<char>>)
    ensures
        rows(r@) == lines_of(v@),
{
    let pieces = split(v, '\n');
    proof {
        crate::text::lemma_split_nonempty(v@, '\n');
        assert(rows(pieces@).len() == pieces@.len());
    }
    let n: usize = pieces.len() - 1;
    let ghost strip = |p: Seq<char>| without_return(p);
    let ghost wanted = rows(pieces@).drop_last().map_values(strip);
    let mut r: Vec<Vec<char>> = Vec::new();
    let mut i: usize = 0;
    while i < n
        invariant
            i <= n,
            n == pieces.len() - 1,
            wanted == rows(pieces@).drop_last().map_values(strip),
            strip == |p: Seq<char>| without_return(p),
            rows(r@) == wanted.take(i as int),
        decreases n - i,
    {
        let piece = &pieces[i];
        let len = piece.len();
        let line = if len > 0 && piece[len - 1] == '\r' {
            slice_of(piece, 0, len - 1)
        } else {
            slice_of(piece, 0, len)
        };
        let ghost before = r@;
        r.push(line);
        proof {
            assert(piece@.subrange(0, len - 1) =~= piece@.drop_last());
            assert(piece@.subrange(0, len as int) =~= piece@);
            assert(line@ == without_return(piece@));
            assert(rows(r@) =~= rows(before).push(line@));
            assert(wanted[i as int] == without_return(rows(pieces@)[i as int]));
            assert(wanted.take(i + 1) =~= wanted.take(i as int).push(wanted[i as int]));
        }
        i += 1;
    }
    proof {
        assert(wanted.take(n as int) =~= wanted);
        assert(rows(pieces@).last() == pieces@[n as int]@);
    }
    if pieces[n].len() > 0 {
        let tail = pieces[n].clone();
        let ghost before = r@;
        r.push(tail);
        proof {
            assert(tail@ =~= pieces@[n as int]@);
            assert(rows(r@) =~= rows(before).push(tail@));
        }
    }
    r
}

/// The preview of a content in a listing.
pub fn preview_text(content: &str) -> (r: String)
    ensures
        r@ == preview_of(content@),
{
    let all = lines(&chars_of(content));
    let shown = first(all, PREVIEW_LINES);
    let mut gap: Vec<char> = Vec::new();
    gap.push(' ');
    proof {
        assert(gap@ =~= seq![' ']);
    }
    let joined = join_with(&shown, &gap);
    let head = if joined.len() > PREVIEW_CHARS {
        string_of(&slice_of(&joined, 0, PREVIEW_CHARS))
    } else {
        string_of(&joined)
    };
    proof {
        if joined@.len() > PREVIEW_CHARS {
            assert(joined@.subrange(0, PREVIEW_CHARS as int) =~= joined@.take(
                PREVIEW_CHARS as int,
            ));
        }
        assert(head@ == preview_head(content@));
    }
    if head.as_str().len() < content.len() {
        let marked = concat3(head.as_str(), "...", "");
        proof {
            reveal_strlit("");
            assert(marked@ =~= head@ + "..."@);
        }
        marked
    } else {
        head
    }
}

/// What chrono's `DateTime::parse_from_rfc3339` and, on what it parsed,
/// `DateTime::format` with the given pattern give for a text: nothing where
/// the text is no RFC 3339 time.
pub uninterp spec fn formatted_rfc3339(ts: Seq<char>, pattern: Seq<char>) -> Option<Seq<char>>;

/// The pattern that shows a time to the minute.
pub open spec fn minute_pattern() -> Seq<char> {
    "%Y-%m-%d %H:%M"@
}

/// Calls chrono's `DateTime::parse_from_rfc3339` on the text and, where that
/// succeeds, `DateTime::format` with the pattern on the parsed time, which
/// carries the offset that the text names. The result depends on the text
/// and the pattern alone. The pattern is held to the one that the library
/// uses, which is valid: an invalid one makes the formatting panic.
#[verifier::external_body]
fn format_rfc3339(ts: &str, pattern: &str) -> (r: Option<String>)
    requires
        pattern@ == minute_pattern(),
    ensures
        crate::config::opt_text(r) == formatted_rfc3339(ts@, pattern@),
{
    match chrono::DateTime::parse_from_rfc3339(ts) {
        Ok(time) => Some(time.format(pattern).to_string()),
        Err(_) => None,
    }
}

/// The time of a snippet as a listing shows it: the formatted time where
/// there is one, else the stored text as it is.
pub fn timestamp_label(ts: &str, formatted: Option<String>) -> (r: String)
    ensures
        r@ == match formatted {
            Some(f) => f@,
            None => ts@,
        },
{
    match formatted {
        Some(f) => f,
        None => ts.to_owned(),
    }
}

/// The time of a snippet as a listing shows it: to the minute where the
/// stored text is an RFC 3339 time, else the stored text as it is.
pub fn format_timestamp(ts: &str) -> (r: String)
    ensures
        r@ == match formatted_rfc3339(ts@, minute_pattern()) {
            Some(f) => f,
            None => ts@,
        },
{
    let formatted = format_rfc3339(ts, "%Y-%m-%d %H:%M");
    timestamp_label(ts, formatted)
}

} // verus!
