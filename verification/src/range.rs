//! Reading and replacing a range of a document.
//!
//! A range runs from a position `start` up to, not including, a position
//! `end`, with `start` no later than `end`. Every edit of the buffer is the
//! replacement of one such range by some lines of text.

use crate::cursor::{CursorPosition, Pos};
use crate::text::{char_count, slice};
use vstd::prelude::*;
use vstd::string::*;

verus! {

/// Whether `start..end` is a range of `lines`.
pub open spec fn is_range(lines: Seq<Seq<char>>, start: Pos, end: Pos) -> bool {
    start.le(end) && start.within(lines) && end.within(lines)
}

/// The text of a range as an ordered sequence of lines: the first line from
/// `start.x` to its end, the lines between whole, the last line up to `end.x`.
pub open spec fn text_in_range(lines: Seq<Seq<char>>, start: Pos, end: Pos) -> Seq<Seq<char>>
    recommends
        is_range(lines, start, end),
{
    if start.y == end.y {
        seq![lines[start.y as int].subrange(start.x as int, end.x as int)]
    } else {
        seq![lines[start.y as int].skip(start.x as int)] + lines.subrange(
            start.y as int + 1,
            end.y as int,
        ) + seq![lines[end.y as int].take(end.x as int)]
    }
}

/// The lines that result when `text` is set between `prefix` and `suffix`:
/// the first line of `text` follows `prefix` on one line, the last line of
/// `text` is followed by `suffix` on one line.
pub open spec fn framed(prefix: Seq<char>, text: Seq<Seq<char>>, suffix: Seq<char>) -> Seq<
    Seq<char>,
>
    recommends
        text.len() > 0,
{
    if text.len() == 1 {
        seq![prefix + text[0] + suffix]
    } else {
        seq![prefix + text[0]] + text.subrange(1, text.len() - 1) + seq![text.last() + suffix]
    }
}

/// The document in which the range `start..end` is replaced by `text`.
pub open spec fn replaced(lines: Seq<Seq<char>>, start: Pos, end: Pos, text: Seq<Seq<char>>) -> Seq<
    Seq<char>,
>
    recommends
        is_range(lines, start, end),
        text.len() > 0,
{
    lines.take(start.y as int) + framed(
        lines[start.y as int].take(start.x as int),
        text,
        lines[end.y as int].skip(end.x as int),
    ) + lines.skip(end.y as int + 1)
}

/// The document without the range `start..end`: the first line keeps what
/// stands before `start.x`, the rest of the last line follows it on the same
/// line, and the lines between are gone.
pub open spec fn removed(lines: Seq<Seq<char>>, start: Pos, end: Pos) -> Seq<Seq<char>>
    recommends
        is_range(lines, start, end),
{
    replaced(lines, start, end, seq![Seq::<char>::empty()])
}

/// The position just behind `text` once it is set in at `at`.
pub open spec fn end_of_text(at: Pos, text: Seq<Seq<char>>) -> Pos
    recommends
        text.len() > 0,
{
    if text.len() == 1 {
        Pos { x: at.x + text[0].len(), y: at.y }
    } else {
        Pos { x: text.last().len(), y: (at.y + text.len() - 1) as nat }
    }
}

/// A line of as many spaces as `line` has characters.
pub open spec fn blank_line(line: Seq<char>) -> Seq<char> {
    Seq::new(line.len(), |i: int| ' ')
}

/// `text` with every character replaced by a space.
pub open spec fn blanked(text: Seq<Seq<char>>) -> Seq<Seq<char>> {
    Seq::new(text.len(), |i: int| blank_line(text[i]))
}

/// The lines, prefix and suffix that meet in [`framed`], written out.
pub fn frame(prefix: String, text: &Vec<String>, suffix: &String) -> (out: Vec<String>)
    requires
        text.len() > 0,
    ensures
        out.deep_view() == framed(prefix@, text.deep_view(), suffix@),
{
    let ghost goal = framed(prefix@, text.deep_view(), suffix@);
    let n = text.len();
    let mut out: Vec<String> = Vec::new();
    let mut first = prefix;
    first.append(text[0].as_str());
    if n == 1 {
        first.append(suffix.as_str());
        out.push(first);
        assert(out.deep_view() =~= goal);
        return out;
    }
    out.push(first);
    let mut i: usize = 1;
    while i < n - 1
        invariant
            1 <= i <= n - 1,
            n == text.len(),
            out.len() == i,
            goal.len() == n,
            forall|j: int| 1 <= j < n - 1 ==> #[trigger] goal[j] == text@[j]@,
            forall|j: int| 0 <= j < i ==> #[trigger] out@[j]@ == goal[j],
        decreases n - i,
    {
        out.push(text[i].clone());
        i = i + 1;
    }
    let mut last = text[n - 1].clone();
    last.append(suffix.as_str());
    out.push(last);
    assert(out.deep_view() =~= goal);
    out
}

/// Replaces the range `start..end` of `lines` by `text` and hands back the
/// lines that the range touched, as they were.
pub fn replace_range(
    lines: &mut Vec<String>,
    start: CursorPosition,
    end: CursorPosition,
    text: &Vec<String>,
) -> (before: Vec<String>)
    requires
        is_range(old(lines).deep_view(), start@, end@),
        text.len() > 0,
    ensures
        final(lines).deep_view() == replaced(
            old(lines).deep_view(),
            start@,
            end@,
            text.deep_view(),
        ),
        before.deep_view() == old(lines).deep_view().subrange(start.y as int, end.y + 1),
{
    let ghost was = lines.deep_view();
    let count = lines.len();
    assert(end.y < count);
    let prefix = slice(&lines[start.y], 0, start.x);
    let last_len = char_count(&lines[end.y]);
    let suffix = slice(&lines[end.y], end.x, last_len);
    let mut middle = frame(prefix, text, &suffix);
    let mut tail = lines.split_off(end.y + 1);
    let before = lines.split_off(start.y);
    lines.append(&mut middle);
    lines.append(&mut tail);
    assert(lines.deep_view() =~= replaced(was, start@, end@, text.deep_view()));
    assert(before.deep_view() =~= was.subrange(start.y as int, end.y + 1));
    before
}

/// Reads the text of the range `start..end`.
pub fn copy_range(lines: &Vec<String>, start: CursorPosition, end: CursorPosition) -> (text: Vec<
    String,
>)
    requires
        is_range(lines.deep_view(), start@, end@),
    ensures
        text.deep_view() == text_in_range(lines.deep_view(), start@, end@),
{
    let ghost goal = text_in_range(lines.deep_view(), start@, end@);
    let mut text: Vec<String> = Vec::new();
    if start.y == end.y {
        text.push(slice(&lines[start.y], start.x, end.x));
        assert(text.deep_view() =~= goal);
        return text;
    }
    let first_len = char_count(&lines[start.y]);
    text.push(slice(&lines[start.y], start.x, first_len));
    let mut i: usize = start.y + 1;
    while i < end.y
        invariant
            start.y < i <= end.y < lines.len(),
            text.len() == i - start.y,
            goal.len() == end.y - start.y + 1,
            goal == text_in_range(lines.deep_view(), start@, end@),
            forall|j: int| 0 <= j < text.len() ==> #[trigger] text@[j]@ == goal[j],
        decreases end.y - i,
    {
        text.push(lines[i].clone());
        i = i + 1;
    }
    text.push(slice(&lines[end.y], 0, end.x));
    assert(text.deep_view() =~= goal);
    text
}

/// As many spaces as `line` has characters.
pub fn blank_of(line: &String) -> (out: String)
    ensures
        out@ == blank_line(line@),
{
    let n = char_count(line);
    let mut out = String::new();
    let mut i: usize = 0;
    while i < n
        invariant
            i <= n,
            n == line@.len(),
            out@ == Seq::new(i as nat, |k: int| ' '),
        decreases n - i,
    {
        out.push(' ');
        i = i + 1;
        assert(out@ =~= Seq::new(i as nat, |k: int| ' '));
    }
    out
}

/// `text` with every character replaced by a space.
pub fn blank_text(text: &Vec<String>) -> (out: Vec<String>)
    ensures
        out.deep_view() == blanked(text.deep_view()),
{
    let mut out: Vec<String> = Vec::new();
    let mut i: usize = 0;
    while i < text.len()
        invariant
            i <= text.len(),
            out.len() == i,
            forall|j: int| 0 <= j < i ==> #[trigger] out@[j]@ == blank_line(text@[j]@),
        decreases text.len() - i,
    {
        out.push(blank_of(&text[i]));
        i = i + 1;
    }
    assert(out.deep_view() =~= blanked(text.deep_view()));
    out
}

/// Copies of the `count` lines of `lines` from line `from` on.
pub fn clone_lines(lines: &Vec<String>, from: usize, count: usize) -> (out: Vec<String>)
    requires
        from + count <= lines.len(),
    ensures
        out.deep_view() == lines.deep_view().subrange(from as int, from + count),
{
    let mut out: Vec<String> = Vec::new();
    let mut i: usize = 0;
    while i < count
        invariant
            i <= count,
            from + count <= lines.len(),
            out.len() == i,
            forall|j: int| 0 <= j < i ==> #[trigger] out@[j]@ == lines@[from + j]@,
        decreases count - i,
    {
        out.push(lines[from + i].clone());
        i = i + 1;
    }
    assert(out.deep_view() =~= lines.deep_view().subrange(from as int, from + count));
    out
}

} // verus!
