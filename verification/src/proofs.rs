//! Lemmas about ranges and about the steps of the model, on which the
//! executable editor and the laws rest.

use crate::cursor::Pos;
use crate::model::{
    band, clamped, left_of, moved_sideways, padded, right_of, scrolled, spliced, EditorModel,
};
use crate::range::{blank_line, blanked, end_of_text, framed, is_range, replaced, text_in_range};
use crate::text::{is_line_terminator, line_is_clean, text_is_clean, total_chars};
use vstd::prelude::*;

verus! {

/// A part of a clean line is clean.
pub proof fn lemma_subrange_clean(line: Seq<char>, from: int, to: int)
    requires
        line_is_clean(line),
        0 <= from <= to <= line.len(),
    ensures
        line_is_clean(line.subrange(from, to)),
{
    assert forall|i: int| 0 <= i < to - from implies !is_line_terminator(
        #[trigger] line.subrange(from, to)[i],
    ) by {
        assert(line.subrange(from, to)[i] == line[from + i]);
    }
}

/// Two clean lines joined are clean.
pub proof fn lemma_concat_clean(a: Seq<char>, b: Seq<char>)
    requires
        line_is_clean(a),
        line_is_clean(b),
    ensures
        line_is_clean(a + b),
{
    assert forall|i: int| 0 <= i < (a + b).len() implies !is_line_terminator(
        #[trigger] (a + b)[i],
    ) by {
        if i < a.len() {
            assert((a + b)[i] == a[i]);
        } else {
            assert((a + b)[i] == b[i - a.len()]);
        }
    }
}

/// The shape of [`framed`]: as many lines as the text has.
pub proof fn lemma_framed_shape(prefix: Seq<char>, text: Seq<Seq<char>>, suffix: Seq<char>)
    requires
        text.len() > 0,
    ensures
        framed(prefix, text, suffix).len() == text.len(),
        text.len() == 1 ==> framed(prefix, text, suffix)[0] == prefix + text[0] + suffix,
        text.len() > 1 ==> framed(prefix, text, suffix)[0] == prefix + text[0],
        text.len() > 1 ==> framed(prefix, text, suffix).last() == text.last() + suffix,
        forall|i: int|
            1 <= i < text.len() - 1 ==> #[trigger] framed(prefix, text, suffix)[i] == text[i],
{
}

/// Clean text between a clean prefix and a clean suffix gives clean lines.
pub proof fn lemma_framed_clean(prefix: Seq<char>, text: Seq<Seq<char>>, suffix: Seq<char>)
    requires
        text.len() > 0,
        line_is_clean(prefix),
        line_is_clean(suffix),
        text_is_clean(text),
    ensures
        text_is_clean(framed(prefix, text, suffix)),
{
    let f = framed(prefix, text, suffix);
    lemma_framed_shape(prefix, text, suffix);
    assert forall|i: int| 0 <= i < f.len() implies line_is_clean(#[trigger] f[i]) by {
        assert(line_is_clean(text[i]));
        if text.len() == 1 {
            lemma_concat_clean(prefix, text[0]);
            lemma_concat_clean(prefix + text[0], suffix);
        } else if i == 0 {
            lemma_concat_clean(prefix, text[0]);
        } else if i == text.len() - 1 {
            lemma_concat_clean(text.last(), suffix);
        }
    }
}

/// The shape of [`replaced`]: the lines before the range stay, the framed
/// text follows, and the lines behind the range come last.
pub proof fn lemma_replaced_shape(lines: Seq<Seq<char>>, start: Pos, end: Pos, text: Seq<Seq<char>>)
    requires
        is_range(lines, start, end),
        text.len() > 0,
    ensures
        replaced(lines, start, end, text).len() == lines.len() - (end.y - start.y + 1)
            + text.len(),
        replaced(lines, start, end, text).take(start.y as int) == lines.take(start.y as int),
        replaced(lines, start, end, text).subrange(start.y as int, start.y as int + text.len())
            == framed(
            lines[start.y as int].take(start.x as int),
            text,
            lines[end.y as int].skip(end.x as int),
        ),
        replaced(lines, start, end, text).skip(start.y as int + text.len()) == lines.skip(end.y as int + 1),
        forall|i: int|
            0 <= i < text.len() ==> #[trigger] replaced(lines, start, end, text)[start.y + i]
                == framed(
                lines[start.y as int].take(start.x as int),
                text,
                lines[end.y as int].skip(end.x as int),
            )[i],
        forall|i: int|
            0 <= i < start.y ==> #[trigger] replaced(lines, start, end, text)[i] == lines[i],
        forall|i: int|
            start.y + text.len() <= i < replaced(lines, start, end, text).len()
                ==> #[trigger] replaced(lines, start, end, text)[i] == lines[i - text.len() + (
            end.y - start.y + 1)],
{
    let f = framed(
        lines[start.y as int].take(start.x as int),
        text,
        lines[end.y as int].skip(end.x as int),
    );
    lemma_framed_shape(
        lines[start.y as int].take(start.x as int),
        text,
        lines[end.y as int].skip(end.x as int),
    );
    let r = replaced(lines, start, end, text);
    assert(r.take(start.y as int) =~= lines.take(start.y as int));
    assert(r.subrange(start.y as int, start.y as int + text.len()) =~= f);
    assert(r.skip(start.y as int + text.len()) =~= lines.skip(end.y as int + 1));
}

/// Replacing a range of a clean document by clean text gives a clean document.
pub proof fn lemma_replaced_clean(lines: Seq<Seq<char>>, start: Pos, end: Pos, text: Seq<Seq<char>>)
    requires
        is_range(lines, start, end),
        text.len() > 0,
        text_is_clean(lines),
        text_is_clean(text),
    ensures
        text_is_clean(replaced(lines, start, end, text)),
{
    let prefix = lines[start.y as int].take(start.x as int);
    let suffix = lines[end.y as int].skip(end.x as int);
    lemma_subrange_clean(lines[start.y as int], 0, start.x as int);
    lemma_subrange_clean(lines[end.y as int], end.x as int, lines[end.y as int].len() as int);
    lemma_framed_clean(prefix, text, suffix);
    lemma_framed_shape(prefix, text, suffix);
    let r = replaced(lines, start, end, text);
    let f = framed(prefix, text, suffix);
    assert forall|i: int| 0 <= i < r.len() implies line_is_clean(#[trigger] r[i]) by {
        if i < start.y {
            assert(r[i] == lines[i]);
        } else if i < start.y + text.len() {
            assert(r[i] == f[i - start.y]);
        } else {
            assert(r[i] == lines[i - text.len() + (end.y - start.y + 1)]);
        }
    }
}

/// The text of a range of a clean document is clean and has one line more
/// than the range crosses line breaks.
pub proof fn lemma_text_in_range_clean(lines: Seq<Seq<char>>, start: Pos, end: Pos)
    requires
        is_range(lines, start, end),
        text_is_clean(lines),
    ensures
        text_in_range(lines, start, end).len() == end.y - start.y + 1,
        text_is_clean(text_in_range(lines, start, end)),
{
    let t = text_in_range(lines, start, end);
    assert forall|i: int| 0 <= i < t.len() implies line_is_clean(#[trigger] t[i]) by {
        if start.y == end.y {
            lemma_subrange_clean(lines[start.y as int], start.x as int, end.x as int);
        } else if i == 0 {
            lemma_subrange_clean(
                lines[start.y as int],
                start.x as int,
                lines[start.y as int].len() as int,
            );
        } else if i == end.y - start.y {
            lemma_subrange_clean(lines[end.y as int], 0, end.x as int);
        } else {
            assert(t[i] == lines[start.y + i]);
        }
    }
}

/// Blanked text is clean and keeps the shape of the text.
pub proof fn lemma_blanked_clean(text: Seq<Seq<char>>)
    ensures
        blanked(text).len() == text.len(),
        forall|i: int| 0 <= i < text.len() ==> (#[trigger] blanked(text)[i]).len() == text[i].len(),
        text_is_clean(blanked(text)),
{
    assert forall|i: int| 0 <= i < text.len() implies line_is_clean(#[trigger] blanked(text)[i]) by {
        assert(blanked(text)[i] == blank_line(text[i]));
    }
}

/// The position behind the text set in lies in the new document.
pub proof fn lemma_end_of_text_within(lines: Seq<Seq<char>>, start: Pos, end: Pos, text: Seq<Seq<char>>)
    requires
        is_range(lines, start, end),
        text.len() > 0,
    ensures
        end_of_text(start, text).within(replaced(lines, start, end, text)),
        start.within(replaced(lines, start, end, text)),
        start.le(end_of_text(start, text)),
{
    lemma_replaced_shape(lines, start, end, text);
    let prefix = lines[start.y as int].take(start.x as int);
    let suffix = lines[end.y as int].skip(end.x as int);
    lemma_framed_shape(prefix, text, suffix);
    let r = replaced(lines, start, end, text);
    let f = framed(prefix, text, suffix);
    assert(r[start.y as int + 0] == f[0]);
    assert(r[start.y + (text.len() - 1)] == f[text.len() - 1]);
}

/// A padded document is clean, holds the line asked for and keeps its lines.
pub proof fn lemma_padded(lines: Seq<Seq<char>>, y: nat)
    ensures
        padded(lines, y).len() > y,
        padded(lines, y).len() >= lines.len(),
        padded(lines, y).len() == if y < lines.len() {
            lines.len()
        } else {
            y + 1
        },
        forall|i: int| 0 <= i < lines.len() ==> #[trigger] padded(lines, y)[i] == lines[i],
        forall|i: int|
            lines.len() <= i < padded(lines, y).len() ==> #[trigger] padded(lines, y)[i]
                == Seq::<char>::empty(),
        text_is_clean(lines) ==> text_is_clean(padded(lines, y)),
{
    let p = padded(lines, y);
    if text_is_clean(lines) {
        assert forall|i: int| 0 <= i < p.len() implies line_is_clean(#[trigger] p[i]) by {
            if i < lines.len() {
                assert(p[i] == lines[i]);
            }
        }
    }
}

/// A clamped position lies in the document, and a position in the document
/// stays where it is.
pub proof fn lemma_clamped(lines: Seq<Seq<char>>, p: Pos)
    requires
        lines.len() > 0,
    ensures
        clamped(lines, p).within(lines),
        p.within(lines) ==> clamped(lines, p) == p,
{
}

/// One step to either side stays in the document and keeps document order.
pub proof fn lemma_steps(lines: Seq<Seq<char>>, p: Pos)
    requires
        p.within(lines),
    ensures
        left_of(lines, p).within(lines),
        right_of(lines, p).within(lines),
        left_of(lines, p).le(p),
        p.le(right_of(lines, p)),
{
}

/// Sideways motion stays in the document.
pub proof fn lemma_moved_sideways_within(lines: Seq<Seq<char>>, p: Pos, steps: int)
    requires
        p.within(lines),
    ensures
        moved_sideways(lines, p, steps).within(lines),
    decreases
            if steps < 0 {
                -steps
            } else {
                steps
            },
{
    lemma_steps(lines, p);
    if steps > 0 {
        lemma_moved_sideways_within(lines, right_of(lines, p), steps - 1);
    } else if steps < 0 {
        lemma_moved_sideways_within(lines, left_of(lines, p), steps + 1);
    }
}

/// The scroll offset chosen by [`scrolled`] holds the line in the band.
pub proof fn lemma_scrolled(offset: nat, y: nat, viewport_height: nat)
    ensures
        scrolled(offset, y, viewport_height) <= y <= scrolled(offset, y, viewport_height) + band(
            viewport_height,
        ),
        offset <= y <= offset + band(viewport_height) ==> scrolled(offset, y, viewport_height)
            == offset,
{
}

/// Settling a state whose cursor lies in the document places it.
pub proof fn lemma_settled_placed(m: EditorModel)
    requires
        m.lines.len() > 0,
        m.cursor.within(m.lines),
        m.selection matches Some((a, b)) ==> a.within(m.lines) && b.within(m.lines),
    ensures
        m.settled().placed(),
        m.sound() ==> m.settled().wf(),
        m.placed() ==> m.settled() == m,
{
    lemma_scrolled(m.scroll_offset, m.cursor.y, m.viewport_height);
}

/// The record of a committed edit is sound.
pub proof fn lemma_record_sound(m: EditorModel, start: Pos, end: Pos, text: Seq<Seq<char>>)
    requires
        text_is_clean(m.lines),
        is_range(m.lines, start, end),
        text.len() > 0,
        text_is_clean(text),
    ensures
        m.record_of(start, end, text).sound(),
{
    let r = m.record_of(start, end, text);
    let prefix = m.lines[start.y as int].take(start.x as int);
    let suffix = m.lines[end.y as int].skip(end.x as int);
    lemma_subrange_clean(m.lines[start.y as int], 0, start.x as int);
    lemma_subrange_clean(m.lines[end.y as int], end.x as int, m.lines[end.y as int].len() as int);
    lemma_framed_clean(prefix, text, suffix);
    lemma_framed_shape(prefix, text, suffix);
    assert forall|i: int| 0 <= i < r.before.len() implies line_is_clean(#[trigger] r.before[i]) by {
        assert(r.before[i] == m.lines[start.y + i]);
    }
}

/// A committed edit of a sound state with clean text gives a state that
/// meets the invariant.
pub proof fn lemma_edited_wf(m: EditorModel, start: Pos, end: Pos, text: Seq<Seq<char>>)
    requires
        m.sound(),
        is_range(m.lines, start, end),
        text.len() > 0,
        text_is_clean(text),
    ensures
        m.edited(start, end, text).wf(),
{
    lemma_replaced_clean(m.lines, start, end, text);
    lemma_replaced_shape(m.lines, start, end, text);
    lemma_end_of_text_within(m.lines, start, end, text);
    lemma_record_sound(m, start, end, text);
    let e = EditorModel {
        lines: replaced(m.lines, start, end, text),
        cursor: end_of_text(start, text),
        selection: None,
        undo: m.undo.push(m.record_of(start, end, text)),
        redo: Seq::empty(),
        ..m
    };
    assert forall|i: int| 0 <= i < e.undo.len() implies (#[trigger] e.undo[i]).sound() by {
        if i < m.undo.len() {
            assert(e.undo[i] == m.undo[i]);
        }
    }
    lemma_settled_placed(e);
}

/// Splicing clean lines into a clean document gives a clean document, which
/// is not empty if the lines set in are not.
pub proof fn lemma_spliced_clean(lines: Seq<Seq<char>>, start_line: nat, count: nat, with: Seq<Seq<char>>)
    requires
        text_is_clean(lines),
        text_is_clean(with),
    ensures
        text_is_clean(spliced(lines, start_line, count, with)),
        spliced(lines, start_line, count, with).len() >= with.len(),
{
    let s = spliced(lines, start_line, count, with);
    let from = if start_line <= lines.len() {
        start_line
    } else {
        lines.len()
    };
    let to = if from + count <= lines.len() {
        from + count
    } else {
        lines.len()
    };
    assert forall|i: int| 0 <= i < s.len() implies line_is_clean(#[trigger] s[i]) by {
        if i < from {
            assert(s[i] == lines[i]);
        } else if i < from + with.len() {
            assert(s[i] == with[i - from]);
        } else {
            assert(s[i] == lines[i - from - with.len() + to]);
        }
    }
}

/// Restoring clean lines in a sound state gives a state that meets the
/// invariant and keeps the history.
pub proof fn lemma_restored_wf(
    m: EditorModel,
    start_line: nat,
    count: nat,
    with: Seq<Seq<char>>,
    cursor: Pos,
)
    requires
        m.sound(),
        with.len() > 0,
        text_is_clean(with),
    ensures
        m.restored(start_line, count, with, cursor).wf(),
        m.restored(start_line, count, with, cursor).undo == m.undo,
        m.restored(start_line, count, with, cursor).redo == m.redo,
{
    lemma_spliced_clean(m.lines, start_line, count, with);
    let lines = spliced(m.lines, start_line, count, with);
    lemma_clamped(lines, cursor);
    let e = EditorModel { lines, cursor: clamped(lines, cursor), selection: None, ..m };
    lemma_settled_placed(e);
}

/// The characters of two documents set one behind the other count together.
pub proof fn lemma_total_chars_concat(a: Seq<Seq<char>>, b: Seq<Seq<char>>)
    ensures
        total_chars(a + b) == total_chars(a) + total_chars(b),
    decreases b.len(),
{
    if b.len() == 0 {
        assert(a + b =~= a);
    } else {
        lemma_total_chars_concat(a, b.drop_last());
        assert((a + b).drop_last() =~= a + b.drop_last());
        assert((a + b).last() == b.last());
    }
}

/// A document of one line has the characters of that line.
pub proof fn lemma_total_chars_single(line: Seq<char>)
    ensures
        total_chars(seq![line]) == line.len(),
{
    assert(seq![line].drop_last() =~= Seq::<Seq<char>>::empty());
    assert(total_chars(Seq::<Seq<char>>::empty()) == 0);
    assert(seq![line].last() == line);
}

/// Framed text has the characters of the text, the prefix and the suffix.
pub proof fn lemma_total_chars_framed(prefix: Seq<char>, text: Seq<Seq<char>>, suffix: Seq<char>)
    requires
        text.len() > 0,
    ensures
        total_chars(framed(prefix, text, suffix)) == prefix.len() + total_chars(text)
            + suffix.len(),
{
    if text.len() == 1 {
        assert(text =~= seq![text[0]]);
        lemma_total_chars_single(text[0]);
        lemma_total_chars_single(prefix + text[0] + suffix);
    } else {
        let middle = text.subrange(1, text.len() - 1);
        assert(text =~= seq![text[0]] + middle + seq![text.last()]);
        lemma_total_chars_concat(seq![text[0]] + middle, seq![text.last()]);
        lemma_total_chars_concat(seq![text[0]], middle);
        lemma_total_chars_single(text[0]);
        lemma_total_chars_single(text.last());
        lemma_total_chars_concat(seq![prefix + text[0]] + middle, seq![text.last() + suffix]);
        lemma_total_chars_concat(seq![prefix + text[0]], middle);
        lemma_total_chars_single(prefix + text[0]);
        lemma_total_chars_single(text.last() + suffix);
    }
}

/// Setting text into a document adds exactly the characters of the text.
pub proof fn lemma_total_chars_inserted(lines: Seq<Seq<char>>, at: Pos, text: Seq<Seq<char>>)
    requires
        at.within(lines),
        text.len() > 0,
    ensures
        total_chars(replaced(lines, at, at, text)) == total_chars(lines) + total_chars(text),
{
    let line = lines[at.y as int];
    let prefix = line.take(at.x as int);
    let suffix = line.skip(at.x as int);
    let head = lines.take(at.y as int);
    let tail = lines.skip(at.y as int + 1);
    lemma_total_chars_framed(prefix, text, suffix);
    lemma_total_chars_concat(head + framed(prefix, text, suffix), tail);
    lemma_total_chars_concat(head, framed(prefix, text, suffix));
    assert(lines =~= head + seq![line] + tail);
    lemma_total_chars_concat(head + seq![line], tail);
    lemma_total_chars_concat(head, seq![line]);
    lemma_total_chars_single(line);
    assert(line =~= prefix + suffix);
}

/// Removing a range and setting its text in again where it stood gives the
/// document back.
pub proof fn lemma_remove_then_insert(lines: Seq<Seq<char>>, start: Pos, end: Pos)
    requires
        is_range(lines, start, end),
    ensures
        replaced(
            replaced(lines, start, end, seq![Seq::<char>::empty()]),
            start,
            start,
            text_in_range(lines, start, end),
        ) == lines,
        start.within(replaced(lines, start, end, seq![Seq::<char>::empty()])),
        end_of_text(start, text_in_range(lines, start, end)) == end,
{
    let nothing = seq![Seq::<char>::empty()];
    let less = replaced(lines, start, end, nothing);
    let text = text_in_range(lines, start, end);
    let prefix = lines[start.y as int].take(start.x as int);
    let suffix = lines[end.y as int].skip(end.x as int);
    lemma_replaced_shape(lines, start, end, nothing);
    assert(less[start.y as int + 0] == prefix + Seq::<char>::empty() + suffix);
    assert(less[start.y as int] =~= prefix + suffix);
    assert(less[start.y as int].take(start.x as int) =~= prefix);
    assert(less[start.y as int].skip(start.x as int) =~= suffix);
    lemma_replaced_shape(less, start, start, text);
    let again = replaced(less, start, start, text);
    let f = framed(prefix, text, suffix);
    lemma_framed_shape(prefix, text, suffix);
    assert(again.len() == lines.len());
    assert forall|i: int| 0 <= i < lines.len() implies again[i] == lines[i] by {
        if i < start.y {
            assert(again[i] == less[i]);
        } else if i <= end.y {
            let k = i - start.y;
            assert(again[start.y + k] == f[k]);
            if start.y == end.y {
                assert(f[0] =~= lines[i]);
            } else if k == 0 {
                assert(f[0] =~= lines[i]);
            } else if i == end.y {
                assert(f[k] =~= lines[i]);
            } else {
                assert(f[k] == text[k]);
            }
        } else {
            assert(again[i] == less[i - text.len() + 1]);
        }
    }
    assert(again =~= lines);
}

/// Text set into a document can be read back from where it was set in.
pub proof fn lemma_insert_then_read(lines: Seq<Seq<char>>, at: Pos, text: Seq<Seq<char>>)
    requires
        at.within(lines),
        text.len() > 0,
    ensures
        is_range(replaced(lines, at, at, text), at, end_of_text(at, text)),
        text_in_range(replaced(lines, at, at, text), at, end_of_text(at, text)) == text,
        replaced(replaced(lines, at, at, text), at, end_of_text(at, text), seq![Seq::<char>::empty()])
            == lines,
{
    let more = replaced(lines, at, at, text);
    let end = end_of_text(at, text);
    let prefix = lines[at.y as int].take(at.x as int);
    let suffix = lines[at.y as int].skip(at.x as int);
    let f = framed(prefix, text, suffix);
    lemma_replaced_shape(lines, at, at, text);
    lemma_end_of_text_within(lines, at, at, text);
    lemma_framed_shape(prefix, text, suffix);
    assert(more[at.y as int + 0] == f[0]);
    assert(more[at.y as int + (text.len() - 1)] == f[text.len() - 1]);
    let read = text_in_range(more, at, end);
    assert(read.len() == text.len());
    assert forall|k: int| 0 <= k < text.len() implies read[k] == text[k] by {
        assert(more[at.y + k] == f[k]);
        if text.len() == 1 {
            assert(read[0] =~= text[0]);
        } else if k == 0 {
            assert(read[0] =~= text[0]);
        } else if k == text.len() - 1 {
            assert(read[k] =~= text[k]);
        } else {
            assert(read[k] == more[at.y + k]);
        }
    }
    assert(read =~= text);
    let nothing = seq![Seq::<char>::empty()];
    let back = replaced(more, at, end, nothing);
    lemma_replaced_shape(more, at, end, nothing);
    assert(back.len() == lines.len());
    assert(more[at.y as int].take(at.x as int) =~= prefix);
    assert(more[end.y as int].skip(end.x as int) =~= suffix);
    assert forall|i: int| 0 <= i < lines.len() implies back[i] == lines[i] by {
        if i < at.y {
            assert(back[i] == more[i]);
        } else if i == at.y {
            assert(back[at.y as int + 0] == prefix + Seq::<char>::empty() + suffix);
            assert(back[i] =~= lines[i]);
        } else {
            assert(back[i] == more[i - 1 + (end.y - at.y + 1)]);
        }
    }
    assert(back =~= lines);
}

} // verus!
