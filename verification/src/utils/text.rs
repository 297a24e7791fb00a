//! Characters and lines of a text.

use vstd::prelude::*;
use vstd::string::*;
use crate::error::Error;

verus! {

/// The characters of an optional string.
pub open spec fn optional_text(text: Option<String>) -> Option<Seq<char>> {
    match text {
        Some(t) => Some(t@),
        None => None,
    }
}

/// The characters of an optional string slice.
pub open spec fn optional_str(text: Option<&str>) -> Option<Seq<char>> {
    match text {
        Some(t) => Some(t@),
        None => None,
    }
}

/// The characters of a text that was computed, or the error as it is.
pub open spec fn result_text(text: Result<String, Error>) -> Result<Seq<char>, Error> {
    match text {
        Ok(t) => Ok(t@),
        Err(e) => Err(e),
    }
}

/// The line feed, which ends a line.
pub open spec fn newline() -> char {
    '\n'
}

/// Whether `text` is free of line feeds, so that it fits on one line.
pub open spec fn single_line(text: Seq<char>) -> bool {
    forall|i: int| 0 <= i < text.len() ==> text[i] != newline()
}

/// The lines of `text`: the pieces between its line feeds, in order.
/// A text with `n` line feeds has `n + 1` lines; any of them may be empty.
pub open spec fn split_lines(text: Seq<char>) -> Seq<Seq<char>>
    decreases text.len(),
{
    if text.len() == 0 {
        seq![Seq::empty()]
    } else {
        let before = split_lines(text.drop_last());
        if text.last() == newline() {
            before.push(Seq::empty())
        } else {
            before.drop_last().push(before.last().push(text.last()))
        }
    }
}

/// `lines` put together again, with one line feed between neighbours.
pub open spec fn join_lines(lines: Seq<Seq<char>>) -> Seq<char>
    decreases lines.len(),
{
    if lines.len() == 0 {
        Seq::empty()
    } else if lines.len() == 1 {
        lines[0]
    } else {
        join_lines(lines.drop_last()) + seq![newline()] + lines.last()
    }
}

/// A text always has at least one line.
pub proof fn lemma_split_lines_nonempty(text: Seq<char>)
    ensures
        split_lines(text).len() >= 1,
    decreases text.len(),
{
    if text.len() > 0 {
        lemma_split_lines_nonempty(text.drop_last());
    }
}

/// No line of a text holds a line feed.
pub proof fn lemma_split_lines_single(text: Seq<char>)
    ensures
        forall|k: int| 0 <= k < split_lines(text).len() ==> single_line(#[trigger] split_lines(text)[k]),
    decreases text.len(),
{
    if text.len() > 0 {
        lemma_split_lines_single(text.drop_last());
        lemma_split_lines_nonempty(text.drop_last());
    }
}

/// Text without a line feed, put behind `text`, lengthens its last line.
pub proof fn lemma_split_lines_extend(text: Seq<char>, tail: Seq<char>)
    requires
        single_line(tail),
    ensures
        split_lines(text + tail) == split_lines(text).drop_last().push(
            split_lines(text).last() + tail,
        ),
    decreases tail.len(),
{
    lemma_split_lines_nonempty(text);
    if tail.len() > 0 {
        let shorter = tail.drop_last();
        lemma_split_lines_extend(text, shorter);
        assert((text + tail).drop_last() == text + shorter);
        let before = split_lines(text + shorter);
        assert(before.last().push(tail.last()) == split_lines(text).last() + tail);
    }
}

/// Splitting undoes joining: lines free of line feeds, at least one of
/// them, come back unchanged.
pub proof fn lemma_split_join(lines: Seq<Seq<char>>)
    requires
        lines.len() >= 1,
        forall|k: int| 0 <= k < lines.len() ==> single_line(#[trigger] lines[k]),
    ensures
        split_lines(join_lines(lines)) == lines,
    decreases lines.len(),
{
    if lines.len() == 1 {
        lemma_split_lines_extend(Seq::empty(), lines[0]);
    } else {
        let front = lines.drop_last();
        lemma_split_join(front);
        let joined = join_lines(front) + seq![newline()];
        assert(joined.drop_last() == join_lines(front));
        lemma_split_lines_extend(joined, lines.last());
    }
}

/// The characters of `text`, in order.
pub fn chars_of(text: &str) -> (chars: Vec<char>)
    ensures
        chars@ == text@,
{
    let mut chars: Vec<char> = Vec::new();
    for c in it: text.chars()
        invariant
            it.seq() == text@,
            chars@ == it.seq().take(it.index()),
    {
        chars.push(c);
    }
    chars
}

/// Whether `spans` marks out `lines` inside `chars`: one pair for each
/// line, in order, from the line's first character up to its end, the end
/// not included.
pub open spec fn spans_mark(chars: Seq<char>, spans: Seq<(usize, usize)>, lines: Seq<Seq<char>>) -> bool {
    &&& spans.len() == lines.len()
    &&& forall|k: int|
        0 <= k < spans.len() ==> {
            &&& (#[trigger] spans[k]).0 <= spans[k].1 <= chars.len()
            &&& lines[k] == chars.subrange(spans[k].0 as int, spans[k].1 as int)
        }
}

/// Where each line of `chars` begins and ends.
pub fn line_spans(chars: &Vec<char>) -> (spans: Vec<(usize, usize)>)
    ensures
        spans_mark(chars@, spans@, split_lines(chars@)),
{
    let mut spans: Vec<(usize, usize)> = Vec::new();
    let mut start: usize = 0;
    let mut i: usize = 0;
    while i < chars.len()
        invariant
            start <= i <= chars.len(),
            split_lines(chars@.take(i as int)).len() == spans@.len() + 1,
            split_lines(chars@.take(i as int)).last() == chars@.subrange(start as int, i as int),
            spans_mark(chars@, spans@, split_lines(chars@.take(i as int)).drop_last()),
        decreases chars.len() - i,
    {
        assert(chars@.take(i + 1).drop_last() == chars@.take(i as int));
        if chars[i] == '\n' {
            spans.push((start, i));
            start = i + 1;
        }
        i += 1;
    }
    assert(chars@.take(i as int) == chars@);
    spans.push((start, i));
    spans
}

/// Whether the characters of `chars` from `start` up to `end` begin with
/// `prefix`.
pub fn starts_with(chars: &Vec<char>, start: usize, end: usize, prefix: &Vec<char>) -> (found: bool)
    requires
        start <= end <= chars@.len(),
    ensures
        found == prefix@.is_prefix_of(chars@.subrange(start as int, end as int)),
{
    if prefix.len() > end - start {
        return false;
    }
    let ghost line = chars@.subrange(start as int, end as int);
    let mut j: usize = 0;
    while j < prefix.len()
        invariant
            start <= end <= chars@.len(),
            prefix@.len() <= end - start,
            j <= prefix@.len(),
            line == chars@.subrange(start as int, end as int),
            forall|k: int| 0 <= k < j ==> prefix@[k] == line[k],
        decreases prefix.len() - j,
    {
        if chars[start + j] != prefix[j] {
            return false;
        }
        j += 1;
    }
    true
}

/// Whether `text` fits on one line.
pub fn is_single_line(text: &str) -> (fits: bool)
    ensures
        fits == single_line(text@),
{
    let chars = chars_of(text);
    let mut i: usize = 0;
    while i < chars.len()
        invariant
            chars@ == text@,
            i <= chars@.len(),
            forall|j: int| 0 <= j < i ==> chars@[j] != newline(),
        decreases chars.len() - i,
    {
        if chars[i] == '\n' {
            return false;
        }
        i += 1;
    }
    true
}

} // verus!
