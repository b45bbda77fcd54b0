//! Reading a log: its lines, and the lines that a search keeps.

use vstd::prelude::*;
use vstd::string::*;
use crate::strings::{chars_of, string_of};

verus! {

/// The lines of `text`. A line ends at a line feed; a carriage return right
/// before that line feed belongs to the line ending. What follows the last
/// line feed is a line too, unless nothing follows it.
pub open spec fn text_lines(text: Seq<char>) -> Seq<Seq<char>> {
    lines_from(text, 0, 0)
}

/// The line that `text` holds from `start` up to the line feed at `end`.
pub open spec fn ended_line(text: Seq<char>, start: int, end: int) -> Seq<char> {
    if start < end && text[end - 1] == '\r' {
        text.subrange(start, end - 1)
    } else {
        text.subrange(start, end)
    }
}

/// The lines of `text` from the line that starts at `start`, of which the
/// characters before `at` are known to hold no line feed.
pub open spec fn lines_from(text: Seq<char>, start: int, at: int) -> Seq<Seq<char>>
    decreases text.len() - at,
{
    if at >= text.len() {
        if start < text.len() {
            seq![text.subrange(start, text.len() as int)]
        } else {
            Seq::<Seq<char>>::empty()
        }
    } else if text[at] == '\n' {
        seq![ended_line(text, start, at)] + lines_from(text, at + 1, at + 1)
    } else {
        lines_from(text, start, at + 1)
    }
}

/// The characters of `text` from `from` up to `to`.
fn slice(text: &Vec<char>, from: usize, to: usize) -> (part: Vec<char>)
    requires
        from <= to <= text@.len(),
    ensures
        part@ == text@.subrange(from as int, to as int),
{
    let mut part: Vec<char> = Vec::new();
    let mut i: usize = from;
    while i < to
        invariant
            from <= i <= to <= text@.len(),
            part@ == text@.subrange(from as int, i as int),
        decreases to - i,
    {
        part.push(text[i]);
        i += 1;
    }
    part
}

/// The texts that the rows of `v` hold.
pub open spec fn line_texts(v: Seq<Vec<char>>) -> Seq<Seq<char>> {
    v.map_values(|row: Vec<char>| row@)
}

/// The lines of `text`.
pub fn split_lines(text: &Vec<char>) -> (lines: Vec<Vec<char>>)
    ensures
        line_texts(lines@) == text_lines(text@),
{
    let mut lines: Vec<Vec<char>> = Vec::new();
    let mut start: usize = 0;
    let mut at: usize = 0;
    while at < text.len()
        invariant
            start <= at <= text@.len(),
            line_texts(lines@) + lines_from(text@, start as int, at as int) == text_lines(text@),
        decreases text@.len() - at,
    {
        if text[at] == '\n' {
            let end: usize = if start < at && text[at - 1] == '\r' {
                at - 1
            } else {
                at
            };
            let line = slice(text, start, end);
            lines.push(line);
            start = at + 1;
        }
        at += 1;
    }
    if start < text.len() {
        let line = slice(text, start, text.len());
        lines.push(line);
    }
    lines
}

/// `text` with four spaces in place of every tab.
pub open spec fn tabs_expanded(text: Seq<char>) -> Seq<char>
    decreases text.len(),
{
    if text.len() == 0 {
        text
    } else if text.last() == '\t' {
        tabs_expanded(text.drop_last()) + seq![' ', ' ', ' ', ' ']
    } else {
        tabs_expanded(text.drop_last()).push(text.last())
    }
}

/// `text` with four spaces in place of every tab.
pub fn expand_tabs(text: &Vec<char>) -> (out: Vec<char>)
    ensures
        out@ == tabs_expanded(text@),
{
    let mut out: Vec<char> = Vec::new();
    let mut i: usize = 0;
    while i < text.len()
        invariant
            i <= text@.len(),
            out@ == tabs_expanded(text@.subrange(0, i as int)),
        decreases text@.len() - i,
    {
        let c: char = text[i];
        proof {
            let next = text@.subrange(0, i + 1);
            assert(next.drop_last() =~= text@.subrange(0, i as int));
        }
        if c == '\t' {
            out.push(' ');
            out.push(' ');
            out.push(' ');
            out.push(' ');
        } else {
            out.push(c);
        }
        i += 1;
    }
    proof {
        assert(text@.subrange(0, text@.len() as int) =~= text@);
    }
    out
}

/// Whether `needle` stands somewhere in `hay`, character for character.
pub open spec fn contains_text(hay: Seq<char>, needle: Seq<char>) -> bool {
    exists|i: int| #[trigger] found_at(hay, needle, i)
}

/// Whether `needle` stands in `hay` from place `i` on.
pub open spec fn found_at(hay: Seq<char>, needle: Seq<char>, i: int) -> bool {
    0 <= i && i + needle.len() <= hay.len() && hay.subrange(i, i + needle.len()) == needle
}

/// Whether `needle` stands in `hay` from place `at` on.
fn matches_at(hay: &Vec<char>, needle: &Vec<char>, at: usize) -> (hit: bool)
    requires
        at + needle@.len() <= hay@.len(),
    ensures
        hit == found_at(hay@, needle@, at as int),
{
    let size: usize = hay.len();
    let mut j: usize = 0;
    while j < needle.len()
        invariant
            j <= needle@.len(),
            size == hay@.len(),
            at + needle@.len() <= size,
            forall|k: int| 0 <= k < j ==> hay@[at + k] == needle@[k],
        decreases needle@.len() - j,
    {
        if hay[at + j] != needle[j] {
            return false;
        }
        j += 1;
    }
    proof {
        assert(hay@.subrange(at as int, at + needle@.len()) =~= needle@);
    }
    true
}

/// Executable form of [`contains_text`].
pub fn contains(hay: &Vec<char>, needle: &Vec<char>) -> (hit: bool)
    ensures
        hit == contains_text(hay@, needle@),
{
    if needle.len() > hay.len() {
        return false;
    }
    let last: usize = hay.len() - needle.len();
    let mut i: usize = 0;
    loop
        invariant
            last == hay@.len() - needle@.len(),
            i <= last,
            forall|k: int| 0 <= k < i ==> !found_at(hay@, needle@, k),
        decreases last - i,
    {
        if matches_at(hay, needle, i) {
            return true;
        }
        if i == last {
            return false;
        }
        i += 1;
    }
}

/// The lower-case form of a text, as std's `str::to_lowercase` gives it.
pub uninterp spec fn lowercase_of(text: Seq<char>) -> Seq<char>;

/// `str::to_lowercase` returns the lower-case form of the text, by the
/// Unicode rules that std follows; the result depends on the text alone.
#[verifier::external_body]
pub(crate) fn to_lowercase(text: &str) -> (lower: String)
    ensures
        lower@ == lowercase_of(text@),
{
    text.to_lowercase()
}

/// Whether a line is shown under the search `search`: every line where the
/// search is empty, else the lines whose lower-case form holds the search.
pub open spec fn line_shown(lower: Seq<char>, search: Seq<char>) -> bool {
    search.len() == 0 || contains_text(lower, search)
}

/// The lines of `lines` that are shown under `search`, given the lower-case
/// form of each.
pub open spec fn kept_lines(lines: Seq<Seq<char>>, lowers: Seq<Seq<char>>, search: Seq<char>) -> Seq<
    Seq<char>,
>
    recommends
        lines.len() == lowers.len(),
    decreases lines.len(),
{
    if lines.len() == 0 || lowers.len() == 0 {
        Seq::<Seq<char>>::empty()
    } else if line_shown(lowers.last(), search) {
        kept_lines(lines.drop_last(), lowers.drop_last(), search).push(lines.last())
    } else {
        kept_lines(lines.drop_last(), lowers.drop_last(), search)
    }
}

/// The lower-case form of each line.
pub open spec fn lowered(lines: Seq<Seq<char>>) -> Seq<Seq<char>> {
    lines.map_values(|line: Seq<char>| lowercase_of(line))
}

/// The lines of the log `original` that are shown under `search`.
pub open spec fn shown_lines(original: Seq<char>, search: Seq<char>) -> Seq<Seq<char>> {
    kept_lines(text_lines(original), lowered(text_lines(original)), search)
}

/// Keeps of `lines` what is shown under `search`, given the lower-case form
/// of each line.
pub fn keep_lines(lines: &Vec<Vec<char>>, lowers: &Vec<Vec<char>>, search: &Vec<char>) -> (kept:
    Vec<String>)
    requires
        lines@.len() == lowers@.len(),
    ensures
        kept@.map_values(|s: String| s@) == kept_lines(
            line_texts(lines@),
            line_texts(lowers@),
            search@,
        ),
{
    let mut kept: Vec<String> = Vec::new();
    let mut i: usize = 0;
    let ghost view = |s: String| s@;
    while i < lines.len()
        invariant
            i <= lines@.len(),
            lines@.len() == lowers@.len(),
            view == |s: String| s@,
            kept@.map_values(view) == kept_lines(
                line_texts(lines@).subrange(0, i as int),
                line_texts(lowers@).subrange(0, i as int),
                search@,
            ),
        decreases lines@.len() - i,
    {
        proof {
            let a = line_texts(lines@).subrange(0, i + 1);
            let b = line_texts(lowers@).subrange(0, i + 1);
            assert(a.drop_last() =~= line_texts(lines@).subrange(0, i as int));
            assert(b.drop_last() =~= line_texts(lowers@).subrange(0, i as int));
        }
        let shown: bool = search.len() == 0 || contains(&lowers[i], search);
        if shown {
            let line = string_of(&lines[i]);
            kept.push(line);
        }
        i += 1;
    }
    proof {
        assert(line_texts(lines@).subrange(0, lines@.len() as int) =~= line_texts(lines@));
        assert(line_texts(lowers@).subrange(0, lowers@.len() as int) =~= line_texts(lowers@));
    }
    kept
}

/// The lines of the log `original` that are shown under `search`.
pub fn matching_lines(original: &str, search: &str) -> (kept: Vec<String>)
    ensures
        kept@.map_values(|s: String| s@) == shown_lines(original@, search@),
{
    let text = chars_of(original);
    let lines = split_lines(&text);
    let needle = chars_of(search);
    let mut lowers: Vec<Vec<char>> = Vec::new();
    let mut i: usize = 0;
    while i < lines.len()
        invariant
            i <= lines@.len(),
            lowers@.len() == i,
            forall|k: int| 0 <= k < i ==> (#[trigger] lowers@[k])@ == lowercase_of(lines@[k]@),
        decreases lines@.len() - i,
    {
        let line = string_of(&lines[i]);
        let lower = to_lowercase(line.as_str());
        lowers.push(chars_of(lower.as_str()));
        i += 1;
    }
    proof {
        assert(line_texts(lowers@) =~= lowered(line_texts(lines@)));
    }
    keep_lines(&lines, &lowers, &needle)
}

} // verus!
