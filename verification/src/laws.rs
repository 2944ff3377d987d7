//! What holds of the editor whatever the document and the requests.

use crate::cursor::Pos;
use crate::line_buffer::merged;
use crate::model::{
    band, clamped, left_of, padded, right_of, spliced, EditRequest, EditorModel,
};
use crate::proofs::{
    lemma_restored_wf, lemma_blanked_clean, lemma_clamped, lemma_edited_wf,
    lemma_end_of_text_within, lemma_framed_shape, lemma_insert_then_read,
    lemma_moved_sideways_within, lemma_padded, lemma_remove_then_insert, lemma_replaced_shape,
    lemma_settled_placed, lemma_steps, lemma_text_in_range_clean, lemma_total_chars_inserted,
};
use crate::range::{blanked, end_of_text, framed, is_range, text_in_range};
use crate::text::{is_line_terminator, line_is_clean, text_is_clean, total_chars};
use vstd::prelude::*;

verus! {

/// The range and the text of the edit that a request commits.
pub open spec fn edit_of(m: EditorModel, request: EditRequest) -> (Pos, Pos, Seq<Seq<char>>) {
    let nothing = seq![Seq::<char>::empty()];
    match request {
        EditRequest::WriteChar(c) => (m.cursor, m.cursor, seq![seq![c]]),
        EditRequest::Tab => (m.cursor, m.cursor, seq![seq!['\t']]),
        EditRequest::WriteCharSelected(c) => (
            m.normalized_selection().0,
            m.normalized_selection().1,
            seq![seq![c]],
        ),
        EditRequest::Backspace => (left_of(m.lines, m.cursor), m.cursor, nothing),
        EditRequest::Delete => (m.cursor, right_of(m.lines, m.cursor), nothing),
        EditRequest::BackspaceSelected | EditRequest::Cut => (
            m.normalized_selection().0,
            m.normalized_selection().1,
            nothing,
        ),
        EditRequest::DeleteSelected => (
            m.normalized_selection().0,
            m.normalized_selection().1,
            blanked(m.selected_text()),
        ),
        EditRequest::Enter => (m.cursor, m.cursor, seq![Seq::<char>::empty(), Seq::<char>::empty()]),
        EditRequest::Paste(payload) => (m.cursor, m.cursor, payload),
    }
}

/// Every request that commits is the replacement of a range of the document
/// by clean text.
pub proof fn lemma_request_is_edit(m: EditorModel, request: EditRequest)
    requires
        m.wf(),
        m.admits(request),
        m.commits(request),
    ensures
        is_range(m.lines, edit_of(m, request).0, edit_of(m, request).1),
        edit_of(m, request).2.len() > 0,
        text_is_clean(edit_of(m, request).2),
        m.requested(request) == m.edited(
            edit_of(m, request).0,
            edit_of(m, request).1,
            edit_of(m, request).2,
        ),
{
    let (start, end, text) = edit_of(m, request);
    lemma_steps(m.lines, m.cursor);
    lemma_padded(m.lines, m.cursor.y);
    assert(padded(m.lines, m.cursor.y) == m.lines);
    assert(m.with_room() == m);
    match request {
        EditRequest::WriteChar(c) => {
            assert(line_is_clean(text[0]));
        },
        EditRequest::Tab => {
            assert(line_is_clean(text[0]));
        },
        EditRequest::WriteCharSelected(c) => {
            assert(line_is_clean(text[0]));
        },
        EditRequest::DeleteSelected => {
            lemma_text_in_range_clean(m.lines, start, end);
            lemma_blanked_clean(m.selected_text());
        },
        EditRequest::Paste(payload) => {},
        EditRequest::Enter => {
            assert(line_is_clean(text[0]));
            assert(line_is_clean(text[1]));
        },
        _ => {
            assert(line_is_clean(text[0]));
        },
    }
}

/// The cursor stays in the document: after every edit request the state
/// meets the invariant, so that `0 <= y < line_count` and
/// `0 <= x <= char_count(y)` hold of the cursor.
pub proof fn law_requests_keep_invariant(m: EditorModel, request: EditRequest)
    requires
        m.wf(),
        m.admits(request),
    ensures
        m.requested(request).wf(),
        m.requested(request).cursor.within(m.requested(request).lines),
{
    if m.commits(request) {
        lemma_request_is_edit(m, request);
        let (start, end, text) = edit_of(m, request);
        lemma_edited_wf(m, start, end, text);
    }
}

/// The cursor stays in the document under motion, selection by motion and
/// scrolling.
pub proof fn law_motion_keeps_invariant(m: EditorModel, dx: int, dy: int)
    requires
        m.wf(),
    ensures
        m.moved(dx, dy).wf(),
        m.moved_selecting(dx, dy).wf(),
        m.scrolled_by(dy).wf(),
{
    lemma_moved_sideways_within(m.lines, m.cursor, dx);
    let side = crate::model::moved_sideways(m.lines, m.cursor, dx);
    let y = if side.y + dy < 0 {
        0nat
    } else {
        (side.y + dy) as nat
    };
    let lines = padded(m.lines, y);
    lemma_padded(m.lines, y);
    lemma_clamped(lines, Pos { x: side.x, y });
    let e = EditorModel { lines, cursor: clamped(lines, Pos { x: side.x, y }), ..m };
    lemma_settled_placed(e);
    assert(e.settled() == m.moved(dx, dy));
    // scrolling
    let wanted = m.scroll_offset + dy;
    let offset = if wanted < 0 {
        0nat
    } else if wanted >= m.lines.len() {
        (m.lines.len() - 1) as nat
    } else {
        wanted as nat
    };
    let line = if m.cursor.y < offset {
        offset
    } else if m.cursor.y > offset + band(m.viewport_height) {
        offset + band(m.viewport_height)
    } else {
        m.cursor.y
    };
    lemma_clamped(m.lines, Pos { x: m.cursor.x, y: line });
    let s = EditorModel {
        scroll_offset: offset,
        cursor: clamped(m.lines, Pos { x: m.cursor.x, y: line }),
        ..m
    };
    lemma_settled_placed(s);
}

/// Undo after a committed edit restores the document and the cursor, and
/// redo after that undo restores what the edit had made of them.
pub proof fn lemma_undo_of_edit(m: EditorModel, start: Pos, end: Pos, text: Seq<Seq<char>>)
    requires
        m.lines.len() > 0,
        m.cursor.within(m.lines),
        is_range(m.lines, start, end),
        text.len() > 0,
    ensures
        m.edited(start, end, text).undone().lines == m.lines,
        m.edited(start, end, text).undone().cursor == m.cursor,
        m.edited(start, end, text).undone().undo == m.undo,
        m.edited(start, end, text).undone().redone().lines == m.edited(start, end, text).lines,
        m.edited(start, end, text).undone().redone().cursor == m.edited(start, end, text).cursor,
        m.edited(start, end, text).undone().redone().undo == m.edited(start, end, text).undo,
{
    let after = m.edited(start, end, text);
    let record = m.record_of(start, end, text);
    lemma_replaced_shape(m.lines, start, end, text);
    lemma_end_of_text_within(m.lines, start, end, text);
    assert(after.undo.last() == record);
    assert(after.undo.drop_last() =~= m.undo);
    let back = spliced(after.lines, record.start_line, record.after.len(), record.before);
    assert(back =~= m.lines);
    lemma_clamped(m.lines, m.cursor);
    let undone = after.undone();
    assert(undone.redo.last() == record);
    assert(undone.undo.push(record) =~= after.undo);
    let again = spliced(undone.lines, record.start_line, record.before.len(), record.after);
    assert(again =~= after.lines);
    lemma_clamped(after.lines, after.cursor);
}

/// Undo after any single edit request that commits restores the document and
/// the cursor to what they were before the request.
pub proof fn law_undo_restores(m: EditorModel, request: EditRequest)
    requires
        m.wf(),
        m.admits(request),
        m.commits(request),
    ensures
        m.requested(request).undo.len() > 0,
        m.requested(request).undone().lines == m.lines,
        m.requested(request).undone().cursor == m.cursor,
{
    lemma_request_is_edit(m, request);
    let (start, end, text) = edit_of(m, request);
    lemma_undo_of_edit(m, start, end, text);
}

/// Redo after the undo of an edit request restores the document and the
/// cursor to what the request had made of them.
pub proof fn law_redo_restores(m: EditorModel, request: EditRequest)
    requires
        m.wf(),
        m.admits(request),
        m.commits(request),
    ensures
        m.requested(request).undone().redo.len() > 0,
        m.requested(request).undone().redone().lines == m.requested(request).lines,
        m.requested(request).undone().redone().cursor == m.requested(request).cursor,
{
    lemma_request_is_edit(m, request);
    let (start, end, text) = edit_of(m, request);
    lemma_undo_of_edit(m, start, end, text);
}

/// Undo and redo keep the invariant.
pub proof fn law_history_keeps_invariant(m: EditorModel)
    requires
        m.wf(),
    ensures
        m.undo.len() > 0 ==> m.undone().wf(),
        m.redo.len() > 0 ==> m.redone().wf(),
{
    if m.undo.len() > 0 {
        let record = m.undo.last();
        let rest = EditorModel { undo: m.undo.drop_last(), ..m };
        lemma_restored_wf(
            rest,
            record.start_line,
            record.after.len(),
            record.before,
            record.cursor_before,
        );
        let u = m.undone();
        assert forall|i: int| 0 <= i < u.redo.len() implies (#[trigger] u.redo[i]).sound() by {
            if i < m.redo.len() {
                assert(u.redo[i] == m.redo[i]);
            }
        }
        assert forall|i: int| 0 <= i < u.undo.len() implies (#[trigger] u.undo[i]).sound() by {
            assert(u.undo[i] == m.undo[i]);
        }
    }
    if m.redo.len() > 0 {
        let record = m.redo.last();
        lemma_restored_wf(
            m,
            record.start_line,
            record.before.len(),
            record.after,
            record.cursor_after,
        );
        let r = m.redone();
        assert forall|i: int| 0 <= i < r.undo.len() implies (#[trigger] r.undo[i]).sound() by {
            if i < m.undo.len() {
                assert(r.undo[i] == m.undo[i]);
            }
        }
        assert forall|i: int| 0 <= i < r.redo.len() implies (#[trigger] r.redo[i]).sound() by {
            assert(r.redo[i] == m.redo[i]);
        }
    }
}

/// Insert and then backspace at the same point changes neither the document
/// nor the place of the cursor.
pub proof fn law_insert_then_backspace(m: EditorModel, c: char)
    requires
        m.wf(),
        !is_line_terminator(c),
    ensures
        m.write_char(c).backspace().lines == m.lines,
        m.write_char(c).backspace().cursor == m.cursor,
{
    lemma_padded(m.lines, m.cursor.y);
    assert(padded(m.lines, m.cursor.y) == m.lines);
    assert(m.with_room() == m);
    let text = seq![seq![c]];
    let written = m.write_char(c);
    lemma_insert_then_read(m.lines, m.cursor, text);
    lemma_replaced_shape(m.lines, m.cursor, m.cursor, text);
    assert(written.cursor == end_of_text(m.cursor, text));
    assert(left_of(written.lines, written.cursor) == m.cursor);
}

/// Copy and paste are inverse to each other. A selection that is cut and
/// pasted again where it stood gives the document back, whether it lies in
/// one line or crosses several, and the cursor stands at its end.
pub proof fn law_cut_then_paste(m: EditorModel)
    requires
        m.wf(),
        m.selection is Some,
    ensures
        m.backspace_selected().paste(m.selected_text()).lines == m.lines,
        m.backspace_selected().paste(m.selected_text()).cursor == m.normalized_selection().1,
{
    let (start, end) = m.normalized_selection();
    lemma_remove_then_insert(m.lines, start, end);
    lemma_text_in_range_clean(m.lines, start, end);
}

/// A payload that is pasted can be copied again from where it was pasted:
/// the range from the cursor before the paste to the cursor after it holds
/// the payload, and removing that range gives the document back.
pub proof fn law_paste_then_copy(m: EditorModel, payload: Seq<Seq<char>>)
    requires
        m.wf(),
        payload.len() > 0,
    ensures
        is_range(m.paste(payload).lines, m.cursor, m.paste(payload).cursor),
        text_in_range(m.paste(payload).lines, m.cursor, m.paste(payload).cursor) == payload,
        crate::range::removed(m.paste(payload).lines, m.cursor, m.paste(payload).cursor)
            == m.lines,
{
    lemma_insert_then_read(m.lines, m.cursor, payload);
}

/// Cut removes exactly the selected range and leaves the cursor at its
/// start. The document loses as many characters as the payload holds, and
/// one line for each line break in the payload.
pub proof fn law_cut_counts(m: EditorModel)
    requires
        m.wf(),
        m.selection is Some,
    ensures
        m.backspace_selected().lines == crate::range::removed(
            m.lines,
            m.normalized_selection().0,
            m.normalized_selection().1,
        ),
        m.backspace_selected().cursor == m.normalized_selection().0,
        total_chars(m.backspace_selected().lines) + total_chars(m.selected_text())
            == total_chars(m.lines),
        m.backspace_selected().lines.len() + m.selected_text().len() == m.lines.len() + 1,
{
    let (start, end) = m.normalized_selection();
    let less = m.backspace_selected().lines;
    lemma_remove_then_insert(m.lines, start, end);
    lemma_text_in_range_clean(m.lines, start, end);
    lemma_total_chars_inserted(less, start, m.selected_text());
    lemma_replaced_shape(m.lines, start, end, seq![Seq::<char>::empty()]);
}

/// Delete over a selection keeps the number of lines and the length of each
/// line: inside the range every character is a space, outside it every
/// character is as it was. The cursor lands at the end of the range.
pub proof fn law_delete_keeps_lengths(m: EditorModel)
    requires
        m.wf(),
        m.selection is Some,
    ensures
        m.delete_selected().lines.len() == m.lines.len(),
        forall|i: int|
            0 <= i < m.lines.len() ==> (#[trigger] m.delete_selected().lines[i]).len()
                == m.lines[i].len(),
        forall|i: int, j: int|
            0 <= i < m.lines.len() && 0 <= j < m.lines[i].len() ==> #[trigger] m.delete_selected().lines[i][j]
                == if m.normalized_selection().0.le(Pos { x: j as nat, y: i as nat }) && !m.normalized_selection().1.le(
                Pos { x: j as nat, y: i as nat },
            ) {
                ' '
            } else {
                m.lines[i][j]
            },
        m.delete_selected().cursor == m.normalized_selection().1,
{
    let (start, end) = m.normalized_selection();
    let text = text_in_range(m.lines, start, end);
    let blanks = blanked(text);
    let prefix = m.lines[start.y as int].take(start.x as int);
    let suffix = m.lines[end.y as int].skip(end.x as int);
    let f = framed(prefix, blanks, suffix);
    let after = m.delete_selected().lines;
    lemma_text_in_range_clean(m.lines, start, end);
    lemma_blanked_clean(text);
    lemma_replaced_shape(m.lines, start, end, blanks);
    lemma_framed_shape(prefix, blanks, suffix);
    assert forall|i: int| 0 <= i < m.lines.len() implies (#[trigger] after[i]).len()
        == m.lines[i].len() && forall|j: int|
        0 <= j < m.lines[i].len() ==> #[trigger] after[i][j] == if start.le(
            Pos { x: j as nat, y: i as nat },
        ) && !end.le(Pos { x: j as nat, y: i as nat }) {
            ' '
        } else {
            m.lines[i][j]
        } by {
        if start.y <= i <= end.y {
            let k = i - start.y;
            assert(after[start.y + k] == f[k]);
            assert(blanks[k].len() == text[k].len());
            assert(blanks[k] == crate::range::blank_line(text[k]));
            if 0 < k < end.y - start.y {
                assert(text[k] == m.lines[i]);
            }
        }
    }
}

/// Backspace over a selection shrinks the document by the selected range:
/// it loses the characters and the line breaks of the range.
pub proof fn law_backspace_shrinks(m: EditorModel)
    requires
        m.wf(),
        m.selection is Some,
    ensures
        total_chars(m.backspace_selected().lines) == total_chars(m.lines) - total_chars(
            m.selected_text(),
        ),
        m.backspace_selected().lines.len() == m.lines.len() - (m.normalized_selection().1.y
            - m.normalized_selection().0.y),
        m.backspace_selected().cursor == m.normalized_selection().0,
{
    law_cut_counts(m);
    let (start, end) = m.normalized_selection();
    lemma_text_in_range_clean(m.lines, start, end);
}

/// Delete and backspace over the same selection differ in what they leave,
/// unless the selection is empty.
pub proof fn law_delete_differs_from_backspace(m: EditorModel)
    requires
        m.wf(),
        m.selection is Some,
        m.normalized_selection().0 != m.normalized_selection().1,
    ensures
        m.delete_selected().lines != m.backspace_selected().lines,
{
    let (start, end) = m.normalized_selection();
    law_delete_keeps_lengths(m);
    law_backspace_shrinks(m);
    if start.y == end.y {
        let less = m.backspace_selected().lines;
        let nothing = seq![Seq::<char>::empty()];
        lemma_replaced_shape(m.lines, start, end, nothing);
        let prefix = m.lines[start.y as int].take(start.x as int);
        let suffix = m.lines[end.y as int].skip(end.x as int);
        assert(less[start.y as int + 0] == prefix + Seq::<char>::empty() + suffix);
        assert(less[start.y as int].len() < m.lines[start.y as int].len());
        assert(m.delete_selected().lines[start.y as int].len() == m.lines[start.y as int].len());
    }
}

/// Insert at a cursor that stands in the document sets the character into
/// the cursor line at the cursor and moves the cursor one to the right. The
/// selection clears, one record joins the undo stack and the redo stack
/// empties.
pub proof fn law_write_char_shape(m: EditorModel, c: char)
    requires
        m.wf(),
    ensures
        m.write_char(c).lines == m.lines.update(
            m.cursor.y as int,
            m.lines[m.cursor.y as int].insert(m.cursor.x as int, c),
        ),
        m.write_char(c).cursor == (Pos { x: m.cursor.x + 1, y: m.cursor.y }),
        m.write_char(c).selection is None,
        m.write_char(c).undo.len() == m.undo.len() + 1,
        m.write_char(c).redo.len() == 0,
{
    lemma_padded(m.lines, m.cursor.y);
    assert(padded(m.lines, m.cursor.y) == m.lines);
    assert(m.with_room() == m);
    let text = seq![seq![c]];
    lemma_replaced_shape(m.lines, m.cursor, m.cursor, text);
    let after = m.write_char(c).lines;
    let line = m.lines[m.cursor.y as int];
    let wanted = m.lines.update(m.cursor.y as int, line.insert(m.cursor.x as int, c));
    assert(after.len() == wanted.len());
    assert forall|i: int| 0 <= i < wanted.len() implies after[i] == wanted[i] by {
        if i == m.cursor.y {
            assert(after[m.cursor.y as int + 0] =~= line.insert(m.cursor.x as int, c));
        } else if i > m.cursor.y {
            assert(after[i] == m.lines[i - 1 + 1]);
        }
    }
    assert(after =~= wanted);
}

/// Insert with the cursor outside the document first makes room: the
/// document grows by empty lines up to the cursor line, and an offset behind
/// the end of that line counts as its end.
pub proof fn law_write_char_makes_room(m: EditorModel, c: char)
    requires
        m.sound(),
    ensures
        m.with_room().cursor.within(m.with_room().lines),
        m.with_room().lines == padded(m.lines, m.cursor.y),
        m.with_room().cursor == clamped(padded(m.lines, m.cursor.y), m.cursor),
        m.with_room().sound(),
        m.write_char(c) == m.with_room().write_char(c),
{
    lemma_padded(m.lines, m.cursor.y);
    let room = m.with_room();
    lemma_clamped(room.lines, m.cursor);
    lemma_padded(room.lines, room.cursor.y);
    assert(padded(room.lines, room.cursor.y) == room.lines);
    assert(room.with_room() == room);
}

/// Backspace at the cursor, case by case: inside a line it removes the
/// character before the cursor and moves the cursor onto its place; at the
/// start of a line it joins the line onto the one above and leaves the
/// cursor where the two meet; at the start of the document it does nothing.
pub proof fn law_backspace_shape(m: EditorModel)
    requires
        m.wf(),
    ensures
        m.cursor.x > 0 ==> m.backspace().lines == m.lines.update(
            m.cursor.y as int,
            m.lines[m.cursor.y as int].remove(m.cursor.x - 1),
        ) && m.backspace().cursor == (Pos { x: (m.cursor.x - 1) as nat, y: m.cursor.y }),
        m.cursor.x == 0 && m.cursor.y > 0 ==> m.backspace().lines == merged(
            m.lines,
            m.cursor.y - 1,
        ) && m.backspace().cursor == (Pos {
            x: m.lines[m.cursor.y - 1].len(),
            y: (m.cursor.y - 1) as nat,
        }),
        m.cursor.x == 0 && m.cursor.y == 0 ==> m.backspace() == m,
{
    if !m.at_start() {
        let from = left_of(m.lines, m.cursor);
        let nothing = seq![Seq::<char>::empty()];
        lemma_steps(m.lines, m.cursor);
        lemma_replaced_shape(m.lines, from, m.cursor, nothing);
        let after = m.backspace().lines;
        let line = m.lines[m.cursor.y as int];
        assert(after[from.y as int + 0] == m.lines[from.y as int].take(from.x as int)
            + Seq::<char>::empty() + line.skip(m.cursor.x as int));
        if m.cursor.x > 0 {
            let wanted = m.lines.update(m.cursor.y as int, line.remove(m.cursor.x - 1));
            assert forall|i: int| 0 <= i < wanted.len() implies after[i] == wanted[i] by {
                if i == m.cursor.y {
                    assert(after[i] =~= line.remove(m.cursor.x - 1));
                } else if i > m.cursor.y {
                    assert(after[i] == m.lines[i - 1 + 1]);
                }
            }
            assert(after =~= wanted);
        } else {
            let wanted = merged(m.lines, m.cursor.y - 1);
            assert(after.len() == wanted.len());
            assert forall|i: int| 0 <= i < wanted.len() implies after[i] == wanted[i] by {
                if i == from.y {
                    assert(after[i] =~= m.lines[m.cursor.y - 1] + line);
                } else if i > from.y {
                    assert(after[i] == m.lines[i - 1 + 2]);
                }
            }
            assert(after =~= wanted);
        }
    }
}

/// Delete at the cursor, case by case: inside a line it removes the
/// character at the cursor; at the end of a line it joins the line below
/// onto it; at the end of the document it does nothing. The cursor stays.
pub proof fn law_delete_shape(m: EditorModel)
    requires
        m.wf(),
    ensures
        m.cursor.x < m.lines[m.cursor.y as int].len() ==> m.delete().lines == m.lines.update(
            m.cursor.y as int,
            m.lines[m.cursor.y as int].remove(m.cursor.x as int),
        ),
        m.cursor.x == m.lines[m.cursor.y as int].len() && m.cursor.y + 1 < m.lines.len()
            ==> m.delete().lines == merged(m.lines, m.cursor.y as int),
        m.at_end() ==> m.delete() == m,
        m.delete().cursor == m.cursor,
{
    if !m.at_end() {
        let to = right_of(m.lines, m.cursor);
        let nothing = seq![Seq::<char>::empty()];
        lemma_steps(m.lines, m.cursor);
        lemma_replaced_shape(m.lines, m.cursor, to, nothing);
        let after = m.delete().lines;
        let line = m.lines[m.cursor.y as int];
        assert(after[m.cursor.y as int + 0] == line.take(m.cursor.x as int) + Seq::<char>::empty()
            + m.lines[to.y as int].skip(to.x as int));
        if m.cursor.x < line.len() {
            let wanted = m.lines.update(m.cursor.y as int, line.remove(m.cursor.x as int));
            assert forall|i: int| 0 <= i < wanted.len() implies after[i] == wanted[i] by {
                if i == m.cursor.y {
                    assert(after[i] =~= line.remove(m.cursor.x as int));
                } else if i > m.cursor.y {
                    assert(after[i] == m.lines[i - 1 + 1]);
                }
            }
            assert(after =~= wanted);
        } else {
            let wanted = merged(m.lines, m.cursor.y as int);
            assert(after.len() == wanted.len());
            assert forall|i: int| 0 <= i < wanted.len() implies after[i] == wanted[i] by {
                if i == m.cursor.y {
                    assert(after[i] =~= line + m.lines[m.cursor.y as int + 1]);
                } else if i > m.cursor.y {
                    assert(after[i] == m.lines[i - 1 + 2]);
                }
            }
            assert(after =~= wanted);
        }
    }
}

/// Newline at the cursor: the cursor line keeps what stands before the
/// cursor, what stands behind it becomes a new line directly below, which is
/// empty where the cursor stood at the end of the line, and the cursor goes
/// to the start of that new line.
pub proof fn law_enter_shape(m: EditorModel)
    requires
        m.wf(),
    ensures
        m.enter().lines == m.lines.take(m.cursor.y as int) + seq![
            m.lines[m.cursor.y as int].take(m.cursor.x as int),
            m.lines[m.cursor.y as int].skip(m.cursor.x as int),
        ] + m.lines.skip(m.cursor.y as int + 1),
        m.enter().cursor == (Pos { x: 0, y: m.cursor.y + 1 }),
{
    let text = seq![Seq::<char>::empty(), Seq::<char>::empty()];
    let line = m.lines[m.cursor.y as int];
    let prefix = line.take(m.cursor.x as int);
    let suffix = line.skip(m.cursor.x as int);
    assert(text.subrange(1, 1) =~= Seq::<Seq<char>>::empty());
    assert(prefix + text[0] =~= prefix);
    assert(text.last() + suffix =~= suffix);
    assert(framed(prefix, text, suffix) =~= seq![prefix, suffix]);
}

/// Insert over a selection: the first line of the range keeps what stands
/// before the range and takes the character, what stands behind the range
/// in its last line follows on the same line, and the lines between are
/// gone. The cursor lands behind the character and the selection clears.
pub proof fn law_write_char_selected_shape(m: EditorModel, c: char)
    requires
        m.wf(),
        m.selection is Some,
    ensures
        m.write_char_selected(c).lines == m.lines.take(m.normalized_selection().0.y as int)
            + seq![
            m.lines[m.normalized_selection().0.y as int].take(
                m.normalized_selection().0.x as int,
            ).push(c) + m.lines[m.normalized_selection().1.y as int].skip(
                m.normalized_selection().1.x as int,
            ),
        ] + m.lines.skip(m.normalized_selection().1.y as int + 1),
        m.write_char_selected(c).cursor == (Pos {
            x: m.normalized_selection().0.x + 1,
            y: m.normalized_selection().0.y,
        }),
        m.write_char_selected(c).selection is None,
{
    let (start, end) = m.normalized_selection();
    let prefix = m.lines[start.y as int].take(start.x as int);
    let suffix = m.lines[end.y as int].skip(end.x as int);
    assert(prefix + seq![c] + suffix =~= prefix.push(c) + suffix);
}

/// The selection is read in document order whichever way it is stored, and
/// its endpoints as stored do not change by reading it.
pub proof fn law_selection_is_normalized(m: EditorModel)
    requires
        m.selection is Some,
    ensures
        m.normalized_selection().0.le(m.normalized_selection().1),
        m.selection matches Some((a, b)) && (m.normalized_selection() == (a, b)
            || m.normalized_selection() == (b, a)),
{
}

/// Every request that commits pushes one record onto the undo stack and
/// clears the redo stack and the selection; a request that does not commit
/// changes nothing.
pub proof fn law_commit_records(m: EditorModel, request: EditRequest)
    requires
        m.wf(),
        m.admits(request),
    ensures
        m.commits(request) ==> m.requested(request).undo.len() == m.undo.len() + 1
            && m.requested(request).undo.drop_last() == m.undo && m.requested(request).redo.len()
            == 0 && m.requested(request).selection is None,
        !m.commits(request) ==> m.requested(request) == m,
{
    if m.commits(request) {
        lemma_request_is_edit(m, request);
        assert(m.requested(request).undo.drop_last() =~= m.undo);
    }
}

/// The scroll window moves only when the cursor would leave the band of
/// visible lines, and then just far enough to hold it.
pub proof fn law_scroll_follows_cursor(m: EditorModel)
    ensures
        m.settled().scroll_offset <= m.cursor.y <= m.settled().scroll_offset + band(
            m.viewport_height,
        ),
        m.scroll_offset <= m.cursor.y <= m.scroll_offset + band(m.viewport_height)
            ==> m.settled().scroll_offset == m.scroll_offset,
        m.cursor.y < m.scroll_offset ==> m.settled().scroll_offset == m.cursor.y,
        m.cursor.y > m.scroll_offset + band(m.viewport_height) ==> m.settled().scroll_offset
            + band(m.viewport_height) == m.cursor.y,
{
}

/// A motion that extends the selection always leaves a selection active,
/// and moves the cursor as the plain motion does. From no selection the
/// endpoints are the place left and the place reached; from a selection one
/// endpoint stays, and both stay where the motion is by nothing.
pub proof fn law_extending_motion_selects(m: EditorModel, dx: int, dy: int)
    requires
        m.wf(),
    ensures
        m.moved_selecting(dx, dy).selection is Some,
        m.moved_selecting(dx, dy).lines == m.moved(dx, dy).lines,
        m.moved_selecting(dx, dy).cursor == m.moved(dx, dy).cursor,
        m.selection is None ==> m.moved_selecting(dx, dy).selection == if EditorModel::is_backward(
            dx,
            dy,
        ) {
            Some((m.moved(dx, dy).cursor, m.cursor))
        } else {
            Some((m.cursor, m.moved(dx, dy).cursor))
        },
        m.selection matches Some((a, b)) ==> m.moved_selecting(dx, dy).selection == if EditorModel::is_forward(
            dx,
            dy,
        ) {
            Some((a, m.moved(dx, dy).cursor))
        } else if EditorModel::is_backward(dx, dy) {
            Some((m.moved(dx, dy).cursor, b))
        } else {
            Some((a, b))
        },
        dx == 0 && dy == 0 ==> m.moved(dx, dy).cursor == m.cursor && m.moved(dx, dy).lines
            == m.lines,
{
    if dx == 0 && dy == 0 {
        lemma_padded(m.lines, m.cursor.y);
        lemma_clamped(m.lines, m.cursor);
    }
}

} // verus!
