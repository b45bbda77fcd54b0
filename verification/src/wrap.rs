//! Greedy word wrapping of a notification body.

use vstd::prelude::*;
use crate::strings::{chars_of, string_of};

verus! {

/// Whether `c` is white space: the characters U+0009 to U+000D, U+0020,
/// U+0085, U+00A0, U+1680, U+2000 to U+200A, U+2028, U+2029, U+202F, U+205F
/// and U+3000.
pub open spec fn is_whitespace(c: char) -> bool {
    let u = c as u32;
    ||| 0x09 <= u <= 0x0D
    ||| u == 0x20
    ||| u == 0x85
    ||| u == 0xA0
    ||| u == 0x1680
    ||| 0x2000 <= u <= 0x200A
    ||| u == 0x2028
    ||| u == 0x2029
    ||| u == 0x202F
    ||| u == 0x205F
    ||| u == 0x3000
}

/// Executable form of [`is_whitespace`].
pub fn whitespace(c: char) -> (white: bool)
    ensures
        white == is_whitespace(c),
{
    let u: u32 = c as u32;
    (0x09 <= u && u <= 0x0D) || u == 0x20 || u == 0x85 || u == 0xA0 || u == 0x1680 || (0x2000
        <= u && u <= 0x200A) || u == 0x2028 || u == 0x2029 || u == 0x202F || u == 0x205F || u
        == 0x3000
}

/// `s` without the white space at its end.
pub open spec fn trim_end(s: Seq<char>) -> Seq<char>
    decreases s.len(),
{
    if s.len() > 0 && is_whitespace(s.last()) {
        trim_end(s.drop_last())
    } else {
        s
    }
}

/// `s` without the white space at its start.
pub open spec fn trim_start(s: Seq<char>) -> Seq<char>
    decreases s.len(),
{
    if s.len() > 0 && is_whitespace(s[0]) {
        trim_start(s.drop_first())
    } else {
        s
    }
}

/// `s` without the white space at either end.
pub open spec fn trimmed(s: Seq<char>) -> Seq<char> {
    trim_start(trim_end(s))
}

/// Trimming the end leaves a prefix.
pub proof fn lemma_trim_end_prefix(s: Seq<char>)
    ensures
        trim_end(s).len() <= s.len(),
        trim_end(s) == s.subrange(0, trim_end(s).len() as int),
    decreases s.len(),
{
    if s.len() > 0 && is_whitespace(s.last()) {
        lemma_trim_end_prefix(s.drop_last());
    }
}

/// Trimming the start leaves a suffix.
pub proof fn lemma_trim_start_suffix(s: Seq<char>)
    ensures
        trim_start(s).len() <= s.len(),
        trim_start(s) == s.subrange(s.len() - trim_start(s).len(), s.len() as int),
        s.len() > 0 && is_whitespace(s[0]) ==> trim_start(s).len() < s.len(),
    decreases s.len(),
{
    if s.len() > 0 && is_whitespace(s[0]) {
        lemma_trim_start_suffix(s.drop_first());
    }
}

/// A text that starts with white space loses at least one character when it
/// is trimmed.
pub proof fn lemma_trimmed_shorter(s: Seq<char>)
    requires
        s.len() > 0,
        is_whitespace(s[0]),
    ensures
        trimmed(s).len() < s.len(),
{
    lemma_trim_end_prefix(s);
    lemma_trim_start_suffix(trim_end(s));
}

/// The characters of `line` between the white space at its two ends.
pub fn trim(line: &Vec<char>) -> (out: Vec<char>)
    ensures
        out@ == trimmed(line@),
{
    let mut end: usize = line.len();
    assert(line@.subrange(0, end as int) =~= line@);
    while end > 0 && whitespace(line[end - 1])
        invariant
            end <= line@.len(),
            trim_end(line@) == trim_end(line@.subrange(0, end as int)),
        decreases end,
    {
        proof {
            assert(line@.subrange(0, end as int).drop_last() =~= line@.subrange(0, end - 1));
        }
        end -= 1;
    }
    let ghost kept = line@.subrange(0, end as int);
    let mut start: usize = 0;
    while start < end && whitespace(line[start])
        invariant
            start <= end <= line@.len(),
            trim_start(kept) == trim_start(line@.subrange(start as int, end as int)),
            kept == line@.subrange(0, end as int),
        decreases end - start,
    {
        proof {
            assert(line@.subrange(start as int, end as int).drop_first() =~= line@.subrange(
                start + 1,
                end as int,
            ));
        }
        start += 1;
    }
    let mut out: Vec<char> = Vec::new();
    let mut i: usize = start;
    while i < end
        invariant
            start <= i <= end <= line@.len(),
            out@ == line@.subrange(start as int, i as int),
        decreases end - i,
    {
        out.push(line[i]);
        i += 1;
    }
    out
}

/// The words of `text`: what stands between its spaces, in order. A text
/// with `n` spaces has `n + 1` words, some of them empty where spaces meet
/// or stand at an end.
pub open spec fn split_words(text: Seq<char>) -> Seq<Seq<char>>
    decreases text.len(),
{
    if text.len() == 0 {
        seq![Seq::<char>::empty()]
    } else {
        let before = split_words(text.drop_last());
        if text.last() == ' ' {
            before.push(Seq::<char>::empty())
        } else {
            before.drop_last().push(before.last().push(text.last()))
        }
    }
}

/// The texts that the rows of `v` hold.
pub open spec fn rows(v: Seq<Vec<char>>) -> Seq<Seq<char>> {
    v.map_values(|row: Vec<char>| row@)
}

/// The words of `text`, each as a vector of its own.
pub fn split(text: &Vec<char>) -> (words: Vec<Vec<char>>)
    ensures
        rows(words@) == split_words(text@),
{
    let mut words: Vec<Vec<char>> = Vec::new();
    let mut word: Vec<char> = Vec::new();
    let mut i: usize = 0;
    while i < text.len()
        invariant
            i <= text@.len(),
            split_words(text@.subrange(0, i as int)) == rows(words@).push(word@),
        decreases text@.len() - i,
    {
        let c: char = text[i];
        proof {
            let next = text@.subrange(0, i + 1);
            assert(next.drop_last() =~= text@.subrange(0, i as int));
        }
        if c == ' ' {
            words.push(word);
            word = Vec::new();
        } else {
            word.push(c);
        }
        i += 1;
    }
    proof {
        assert(text@.subrange(0, text@.len() as int) =~= text@);
    }
    words.push(word);
    words
}

/// The columns that a notification body is wrapped to.
pub const BODY_WIDTH: usize = 40;

/// The state of greedy packing after the words of `words`: the lines that are
/// closed, and the line that is still open. In the open line every word
/// follows a space, so its length counts one separator per word; a word joins
/// it as long as that length and the word's stay within `width` together, and
/// else closes it and opens the next. A closed line is trimmed.
pub open spec fn packed(words: Seq<Seq<char>>, width: nat) -> (Seq<Seq<char>>, Seq<char>)
    decreases words.len(),
{
    if words.len() == 0 {
        (Seq::<Seq<char>>::empty(), Seq::<char>::empty())
    } else {
        let (lines, open) = packed(words.drop_last(), width);
        let word = words.last();
        if open.len() + word.len() > width {
            (lines.push(trimmed(open)), seq![' '] + word)
        } else {
            (lines, open + seq![' '] + word)
        }
    }
}

/// The lines that `text` wraps to at `width` columns.
pub open spec fn wrap_lines(text: Seq<char>, width: nat) -> Seq<Seq<char>> {
    let (lines, open) = packed(split_words(text), width);
    if open.len() > 0 {
        lines.push(trimmed(open))
    } else {
        lines
    }
}

/// `lines` with a line feed between each two.
pub open spec fn joined(lines: Seq<Seq<char>>) -> Seq<char>
    decreases lines.len(),
{
    if lines.len() == 0 {
        Seq::<char>::empty()
    } else if lines.len() == 1 {
        lines[0]
    } else {
        joined(lines.drop_last()) + seq!['\n'] + lines.last()
    }
}

/// `text` wrapped at `width` columns: a function of the text and the width
/// alone.
pub open spec fn wrap_text(text: Seq<char>, width: nat) -> Seq<char> {
    joined(wrap_lines(text, width))
}

/// Where no word is longer than `width`, the open line holds at most one
/// character more than `width`, a leading space, and no closed line is longer
/// than `width`.
pub proof fn lemma_packed_fits(words: Seq<Seq<char>>, width: nat)
    requires
        forall|i: int| 0 <= i < words.len() ==> (#[trigger] words[i]).len() <= width,
    ensures
        packed(words, width).1.len() <= width + 1,
        packed(words, width).1.len() > 0 ==> packed(words, width).1[0] == ' ',
        forall|k: int|
            0 <= k < packed(words, width).0.len() ==> (#[trigger] packed(words, width).0[k]).len()
                <= width,
    decreases words.len(),
{
    if words.len() > 0 {
        let before = words.drop_last();
        assert forall|i: int| 0 <= i < before.len() implies (#[trigger] before[i]).len()
            <= width by {
        }
        lemma_packed_fits(before, width);
        let (lines, open) = packed(before, width);
        let word = words.last();
        if open.len() + word.len() > width {
            if open.len() > 0 {
                lemma_trimmed_shorter(open);
            }
        }
    }
}

/// Where no word of `text` is longer than `width`, no line of the wrapped
/// text is.
pub proof fn lemma_lines_fit(text: Seq<char>, width: nat)
    requires
        forall|i: int|
            0 <= i < split_words(text).len() ==> (#[trigger] split_words(text)[i]).len() <= width,
    ensures
        forall|k: int|
            0 <= k < wrap_lines(text, width).len() ==> (#[trigger] wrap_lines(text, width)[k]).len()
                <= width,
{
    lemma_packed_fits(split_words(text), width);
    let (lines, open) = packed(split_words(text), width);
    if open.len() > 0 {
        lemma_trimmed_shorter(open);
    }
}

/// The lines that `text` wraps to at `width` columns.
pub fn wrap(text: &Vec<char>, width: usize) -> (lines: Vec<Vec<char>>)
    ensures
        rows(lines@) == wrap_lines(text@, width as nat),
{
    let words = split(text);
    let mut lines: Vec<Vec<char>> = Vec::new();
    let mut open: Vec<char> = Vec::new();
    let mut i: usize = 0;
    while i < words.len()
        invariant
            i <= words@.len(),
            packed(rows(words@).subrange(0, i as int), width as nat) == (rows(lines@), open@),
        decreases words@.len() - i,
    {
        let word = &words[i];
        proof {
            let next = rows(words@).subrange(0, i + 1);
            assert(next.drop_last() =~= rows(words@).subrange(0, i as int));
        }
        let over: bool = open.len() > width || word.len() > width - open.len();
        if over {
            let closed = trim(&open);
            lines.push(closed);
            open = Vec::new();
        }
        let ghost start = open@;
        open.push(' ');
        let mut j: usize = 0;
        while j < word.len()
            invariant
                j <= word@.len(),
                open@ == start + seq![' '] + word@.subrange(0, j as int),
            decreases word@.len() - j,
        {
            open.push(word[j]);
            j += 1;
        }
        i += 1;
    }
    proof {
        assert(rows(words@).subrange(0, words@.len() as int) =~= rows(words@));
    }
    if open.len() > 0 {
        let closed = trim(&open);
        lines.push(closed);
    }
    lines
}

/// `lines` with a line feed between each two.
pub fn join(lines: &Vec<Vec<char>>) -> (text: Vec<char>)
    ensures
        text@ == joined(rows(lines@)),
{
    let mut text: Vec<char> = Vec::new();
    let mut i: usize = 0;
    while i < lines.len()
        invariant
            i <= lines@.len(),
            text@ == joined(rows(lines@).subrange(0, i as int)),
        decreases lines@.len() - i,
    {
        let line = &lines[i];
        if i > 0 {
            text.push('\n');
        }
        let ghost start = text@;
        let mut j: usize = 0;
        while j < line.len()
            invariant
                j <= line@.len(),
                text@ == start + line@.subrange(0, j as int),
            decreases line@.len() - j,
        {
            text.push(line[j]);
            j += 1;
        }
        proof {
            let next = rows(lines@).subrange(0, i + 1);
            assert(next.drop_last() =~= rows(lines@).subrange(0, i as int));
        }
        i += 1;
    }
    proof {
        assert(rows(lines@).subrange(0, lines@.len() as int) =~= rows(lines@));
    }
    text
}

/// `body` wrapped at `width` columns: words are packed greedily, lines are
/// trimmed and joined by line feeds.
pub fn wrap_body(body: &str, width: usize) -> (text: String)
    ensures
        text@ == wrap_text(body@, width as nat),
{
    let chars = chars_of(body);
    let lines = wrap(&chars, width);
    let text = join(&lines);
    string_of(&text)
}

} // verus!
