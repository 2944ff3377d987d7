//! The mathematical model of the editor: what each request does to the
//! document, the cursor, the selection, the scroll window and the history.
//!
//! The executable editor is proved to follow this model step by step.

use crate::cursor::Pos;
use crate::range::{blanked, end_of_text, framed, is_range, replaced, text_in_range};
use crate::text::{is_line_terminator, text_is_clean, visual_column};
use vstd::prelude::*;

verus! {

/// One reversible edit: the lines `before` that started at `start_line` were
/// replaced by the lines `after`, and the cursor went from `cursor_before` to
/// `cursor_after`.
pub struct RecordModel {
    /// The first line that the edit touched.
    pub start_line: nat,
    /// The lines that it touched, as they were.
    pub before: Seq<Seq<char>>,
    /// The lines that took their place.
    pub after: Seq<Seq<char>>,
    /// Where the cursor stood before the edit.
    pub cursor_before: Pos,
    /// Where the cursor stood after the edit.
    pub cursor_after: Pos,
}

impl RecordModel {
    /// A record holds lines without terminators, and at least one on each side.
    pub open spec fn sound(self) -> bool {
        &&& self.before.len() > 0
        &&& self.after.len() > 0
        &&& text_is_clean(self.before)
        &&& text_is_clean(self.after)
    }
}

/// The lines `count` long from `start_line` on replaced by `with`; a range
/// that reaches past the end of `lines` is cut short there.
pub open spec fn spliced(lines: Seq<Seq<char>>, start_line: nat, count: nat, with: Seq<Seq<char>>) -> Seq<
    Seq<char>,
> {
    let from = if start_line <= lines.len() {
        start_line
    } else {
        lines.len()
    };
    let to = if from + count <= lines.len() {
        from + count
    } else {
        lines.len()
    };
    lines.take(from as int) + with + lines.skip(to as int)
}

/// `p` moved to the nearest position of `lines`.
pub open spec fn clamped(lines: Seq<Seq<char>>, p: Pos) -> Pos
    recommends
        lines.len() > 0,
{
    let y = if p.y < lines.len() {
        p.y
    } else {
        (lines.len() - 1) as nat
    };
    let x = if p.x <= lines[y as int].len() {
        p.x
    } else {
        lines[y as int].len()
    };
    Pos { x, y }
}

/// `lines` with empty lines added at the end until line `y` exists.
pub open spec fn padded(lines: Seq<Seq<char>>, y: nat) -> Seq<Seq<char>> {
    if y < lines.len() {
        lines
    } else {
        lines + Seq::new((y + 1 - lines.len()) as nat, |i: int| Seq::<char>::empty())
    }
}

/// The number of lines below the first visible one among which the cursor may
/// stand: two less than the height of the viewport, and never less than none.
pub open spec fn band(viewport_height: nat) -> nat {
    if viewport_height >= 2 {
        (viewport_height - 2) as nat
    } else {
        0
    }
}

/// The scroll offset that keeps line `y` in the band, moved from `offset` only
/// as far as that takes.
pub open spec fn scrolled(offset: nat, y: nat, viewport_height: nat) -> nat {
    if y < offset {
        y
    } else if y > offset + band(viewport_height) {
        (y - band(viewport_height)) as nat
    } else {
        offset
    }
}

/// The position one step to the left: the end of the line above at the start
/// of a line, and no move at the start of the document.
pub open spec fn left_of(lines: Seq<Seq<char>>, p: Pos) -> Pos {
    if p.x > 0 {
        Pos { x: (p.x - 1) as nat, y: p.y }
    } else if p.y > 0 {
        Pos { x: lines[p.y - 1].len(), y: (p.y - 1) as nat }
    } else {
        p
    }
}

/// The position one step to the right: the start of the line below at the end
/// of a line, and no move at the end of the document.
pub open spec fn right_of(lines: Seq<Seq<char>>, p: Pos) -> Pos {
    if p.x < lines[p.y as int].len() {
        Pos { x: p.x + 1, y: p.y }
    } else if p.y + 1 < lines.len() {
        Pos { x: 0, y: p.y + 1 }
    } else {
        p
    }
}

/// `steps` single steps from `p`: to the right if positive, to the left if
/// negative.
pub open spec fn moved_sideways(lines: Seq<Seq<char>>, p: Pos, steps: int) -> Pos
    decreases
            if steps < 0 {
                -steps
            } else {
                steps
            },
{
    if steps > 0 {
        moved_sideways(lines, right_of(lines, p), steps - 1)
    } else if steps < 0 {
        moved_sideways(lines, left_of(lines, p), steps + 1)
    } else {
        p
    }
}

/// The state of an editor.
pub struct EditorModel {
    /// The lines of the document.
    pub lines: Seq<Seq<char>>,
    /// The place of the caret.
    pub cursor: Pos,
    /// The two endpoints of the selection, as stored; `None` when inactive.
    pub selection: Option<(Pos, Pos)>,
    /// The index of the first visible line.
    pub scroll_offset: nat,
    /// The height of the viewport in rows.
    pub viewport_height: nat,
    /// The distance between two tab stops.
    pub tab_width: nat,
    /// The column of the cursor on screen.
    pub visual_x: nat,
    /// The edits that can be undone, the last one at the end.
    pub undo: Seq<RecordModel>,
    /// The edits that can be redone, the next one at the end.
    pub redo: Seq<RecordModel>,
}

impl EditorModel {
    /// What holds of an editor wherever its cursor stands: a positive tab
    /// width, no line terminator in any line, and a sound history.
    pub open spec fn sound(self) -> bool {
        &&& self.tab_width > 0
        &&& text_is_clean(self.lines)
        &&& forall|i: int| 0 <= i < self.undo.len() ==> (#[trigger] self.undo[i]).sound()
        &&& forall|i: int| 0 <= i < self.redo.len() ==> (#[trigger] self.redo[i]).sound()
    }

    /// Whether the cursor, the selection, the scroll window and the visual
    /// column fit the document.
    pub open spec fn placed(self) -> bool {
        &&& self.lines.len() > 0
        &&& self.cursor.within(self.lines)
        &&& self.selection matches Some((a, b)) ==> a.within(self.lines) && b.within(self.lines)
        &&& self.scroll_offset <= self.cursor.y <= self.scroll_offset + band(self.viewport_height)
        &&& self.visual_x == visual_column(
            self.lines[self.cursor.y as int],
            self.cursor.x,
            self.tab_width,
        )
    }

    /// The invariant of the editor.
    pub open spec fn wf(self) -> bool {
        self.sound() && self.placed()
    }

    /// The selection in document order, earlier endpoint first.
    pub open spec fn normalized_selection(self) -> (Pos, Pos)
        recommends
            self.selection is Some,
    {
        let (a, b) = self.selection->0;
        if a.le(b) {
            (a, b)
        } else {
            (b, a)
        }
    }

    /// Whether a selection is active and both its endpoints lie in the document.
    pub open spec fn has_valid_selection(self) -> bool {
        self.selection matches Some((a, b)) && a.within(self.lines) && b.within(self.lines)
    }

    /// The state with the visual column computed anew and the scroll window
    /// moved just far enough to show the cursor line.
    pub open spec fn settled(self) -> EditorModel {
        EditorModel {
            visual_x: visual_column(self.lines[self.cursor.y as int], self.cursor.x, self.tab_width),
            scroll_offset: scrolled(self.scroll_offset, self.cursor.y, self.viewport_height),
            ..self
        }
    }

    /// The record of replacing `start..end` by `text`.
    pub open spec fn record_of(self, start: Pos, end: Pos, text: Seq<Seq<char>>) -> RecordModel {
        RecordModel {
            start_line: start.y,
            before: self.lines.subrange(start.y as int, end.y as int + 1),
            after: framed(
                self.lines[start.y as int].take(start.x as int),
                text,
                self.lines[end.y as int].skip(end.x as int),
            ),
            cursor_before: self.cursor,
            cursor_after: end_of_text(start, text),
        }
    }

    /// The committed edit that replaces the range `start..end` by `text`: the
    /// cursor lands behind `text`, the selection clears, one record goes onto
    /// the undo stack and the redo stack empties.
    pub open spec fn edited(self, start: Pos, end: Pos, text: Seq<Seq<char>>) -> EditorModel
        recommends
            is_range(self.lines, start, end),
            text.len() > 0,
    {
        EditorModel {
            lines: replaced(self.lines, start, end, text),
            cursor: end_of_text(start, text),
            selection: None,
            undo: self.undo.push(self.record_of(start, end, text)),
            redo: Seq::empty(),
            ..self
        }.settled()
    }

    /// The state with room for the cursor: empty lines are added up to the
    /// cursor line, and an offset behind the end of that line moves to its end.
    pub open spec fn with_room(self) -> EditorModel {
        let lines = padded(self.lines, self.cursor.y);
        EditorModel { lines, cursor: clamped(lines, self.cursor), ..self }
    }

    /// Insert at the cursor.
    pub open spec fn write_char(self, c: char) -> EditorModel {
        let m = self.with_room();
        m.edited(m.cursor, m.cursor, seq![seq![c]])
    }

    /// Insert over the selection.
    pub open spec fn write_char_selected(self, c: char) -> EditorModel
        recommends
            self.has_valid_selection(),
    {
        let (start, end) = self.normalized_selection();
        self.edited(start, end, seq![seq![c]])
    }

    /// Whether backspace at the cursor has nothing to remove.
    pub open spec fn at_start(self) -> bool {
        self.cursor.x == 0 && self.cursor.y == 0
    }

    /// Whether delete at the cursor has nothing to remove.
    pub open spec fn at_end(self) -> bool {
        self.cursor.x == self.lines[self.cursor.y as int].len() && self.cursor.y + 1
            == self.lines.len()
    }

    /// Backspace at the cursor.
    pub open spec fn backspace(self) -> EditorModel {
        if self.at_start() {
            self
        } else {
            self.edited(left_of(self.lines, self.cursor), self.cursor, seq![Seq::empty()])
        }
    }

    /// Backspace over the selection.
    pub open spec fn backspace_selected(self) -> EditorModel
        recommends
            self.has_valid_selection(),
    {
        let (start, end) = self.normalized_selection();
        self.edited(start, end, seq![Seq::empty()])
    }

    /// Delete at the cursor.
    pub open spec fn delete(self) -> EditorModel {
        if self.at_end() {
            self
        } else {
            self.edited(self.cursor, right_of(self.lines, self.cursor), seq![Seq::empty()])
        }
    }

    /// Delete over the selection: the range is blanked, not removed.
    pub open spec fn delete_selected(self) -> EditorModel
        recommends
            self.has_valid_selection(),
    {
        let (start, end) = self.normalized_selection();
        self.edited(start, end, blanked(text_in_range(self.lines, start, end)))
    }

    /// Newline at the cursor.
    pub open spec fn enter(self) -> EditorModel {
        self.edited(self.cursor, self.cursor, seq![Seq::empty(), Seq::empty()])
    }

    /// The text of the selection.
    pub open spec fn selected_text(self) -> Seq<Seq<char>>
        recommends
            self.has_valid_selection(),
    {
        let (start, end) = self.normalized_selection();
        text_in_range(self.lines, start, end)
    }

    /// Paste of a payload at the cursor; the cursor lands behind the payload.
    pub open spec fn paste(self, payload: Seq<Seq<char>>) -> EditorModel {
        if payload.len() == 0 {
            self
        } else {
            self.edited(self.cursor, self.cursor, payload)
        }
    }

    /// The state with the `count` lines from `start_line` on replaced by the
    /// lines `with` and the cursor set to `cursor`, moved into the document
    /// if it would stand outside. The selection clears.
    pub open spec fn restored(
        self,
        start_line: nat,
        count: nat,
        with: Seq<Seq<char>>,
        cursor: Pos,
    ) -> EditorModel {
        let lines = spliced(self.lines, start_line, count, with);
        EditorModel { lines, cursor: clamped(lines, cursor), selection: None, ..self }.settled()
    }

    /// Undo of the last edit: the lines that the edit left are replaced by
    /// the lines that it found, and the cursor goes back where it was.
    pub open spec fn undone(self) -> EditorModel
        recommends
            self.undo.len() > 0,
    {
        let record = self.undo.last();
        EditorModel {
            undo: self.undo.drop_last(),
            redo: self.redo.push(record),
            ..self.restored(
                record.start_line,
                record.after.len(),
                record.before,
                record.cursor_before,
            )
        }
    }

    /// Redo of the edit that was undone last: the lines that it found are
    /// replaced by the lines that it left, and the cursor goes where it went.
    pub open spec fn redone(self) -> EditorModel
        recommends
            self.redo.len() > 0,
    {
        let record = self.redo.last();
        EditorModel {
            undo: self.undo.push(record),
            redo: self.redo.drop_last(),
            ..self.restored(
                record.start_line,
                record.before.len(),
                record.after,
                record.cursor_after,
            )
        }
    }

    /// The cursor moved by `dx` steps sideways, then by `dy` lines: up no
    /// further than the first line, down as far as asked, with empty lines
    /// added below the document where it ends sooner. The offset is then
    /// held to the length of the line reached.
    pub open spec fn moved(self, dx: int, dy: int) -> EditorModel {
        let side = moved_sideways(self.lines, self.cursor, dx);
        let y = if side.y + dy < 0 {
            0nat
        } else {
            (side.y + dy) as nat
        };
        let lines = padded(self.lines, y);
        EditorModel { lines, cursor: clamped(lines, Pos { x: side.x, y }), ..self }.settled()
    }

    /// Whether a motion by `(dx, dy)` goes forward in the document: down, or
    /// to the right on the same line.
    pub open spec fn is_forward(dx: int, dy: int) -> bool {
        dy > 0 || (dy == 0 && dx > 0)
    }

    /// Whether a motion by `(dx, dy)` goes backward: up, or to the left.
    pub open spec fn is_backward(dx: int, dy: int) -> bool {
        dy < 0 || (dy == 0 && dx < 0)
    }

    /// A motion that extends the selection. From no selection, the place left
    /// and the place reached become its endpoints: `start` is the place left
    /// when the motion goes forward, and the place reached when it goes
    /// backward. With a selection active, a forward motion sets `end` to the
    /// place reached and a backward motion sets `start`; the other endpoint
    /// stays. A motion by nothing has no direction: from no selection it
    /// selects the empty range at the cursor, and it leaves an active
    /// selection as it is.
    pub open spec fn moved_selecting(self, dx: int, dy: int) -> EditorModel {
        let m = self.moved(dx, dy);
        let selection = if Self::is_forward(dx, dy) {
            match self.selection {
                None => Some((self.cursor, m.cursor)),
                Some((a, b)) => Some((a, m.cursor)),
            }
        } else if Self::is_backward(dx, dy) {
            match self.selection {
                None => Some((m.cursor, self.cursor)),
                Some((a, b)) => Some((m.cursor, b)),
            }
        } else {
            match self.selection {
                None => Some((self.cursor, m.cursor)),
                Some((a, b)) => Some((a, b)),
            }
        };
        EditorModel { selection, ..m }
    }

    /// The scroll window moved by `delta` lines, no further than the first and
    /// the last line; the cursor follows where it would leave the band.
    pub open spec fn scrolled_by(self, delta: int) -> EditorModel {
        let wanted = self.scroll_offset + delta;
        let offset = if wanted < 0 {
            0nat
        } else if wanted >= self.lines.len() {
            (self.lines.len() - 1) as nat
        } else {
            wanted as nat
        };
        let y = if self.cursor.y < offset {
            offset
        } else if self.cursor.y > offset + band(self.viewport_height) {
            offset + band(self.viewport_height)
        } else {
            self.cursor.y
        };
        EditorModel {
            scroll_offset: offset,
            cursor: clamped(self.lines, Pos { x: self.cursor.x, y }),
            ..self
        }.settled()
    }
}

/// A request to edit the document.
pub enum EditRequest {
    /// Insert a character at the cursor.
    WriteChar(char),
    /// Insert a character over the selection.
    WriteCharSelected(char),
    /// Backspace at the cursor.
    Backspace,
    /// Backspace over the selection.
    BackspaceSelected,
    /// Delete at the cursor.
    Delete,
    /// Delete over the selection.
    DeleteSelected,
    /// Insert a tab at the cursor.
    Tab,
    /// Break the line at the cursor.
    Enter,
    /// Cut the selection.
    Cut,
    /// Paste a payload at the cursor.
    Paste(Seq<Seq<char>>),
}

impl EditorModel {
    /// Whether the editor takes the request in this state: a character to
    /// write is no line terminator, a request on the selection finds a
    /// selection, and a payload to paste is clean.
    pub open spec fn admits(self, request: EditRequest) -> bool {
        match request {
            EditRequest::WriteChar(c) => !is_line_terminator(c),
            EditRequest::WriteCharSelected(c) => !is_line_terminator(c) && self.selection is Some,
            EditRequest::BackspaceSelected | EditRequest::DeleteSelected | EditRequest::Cut => {
                self.selection is Some
            },
            EditRequest::Paste(payload) => text_is_clean(payload),
            _ => true,
        }
    }

    /// Whether the request changes the document, and so commits an edit:
    /// every request does but backspace at the start of the document, delete
    /// at its end, and paste of an empty payload.
    pub open spec fn commits(self, request: EditRequest) -> bool {
        match request {
            EditRequest::Backspace => !self.at_start(),
            EditRequest::Delete => !self.at_end(),
            EditRequest::Paste(payload) => payload.len() > 0,
            _ => true,
        }
    }

    /// The state after the request.
    pub open spec fn requested(self, request: EditRequest) -> EditorModel {
        match request {
            EditRequest::WriteChar(c) => self.write_char(c),
            EditRequest::WriteCharSelected(c) => self.write_char_selected(c),
            EditRequest::Backspace => self.backspace(),
            EditRequest::BackspaceSelected => self.backspace_selected(),
            EditRequest::Delete => self.delete(),
            EditRequest::DeleteSelected => self.delete_selected(),
            EditRequest::Tab => self.write_char('\t'),
            EditRequest::Enter => self.enter(),
            EditRequest::Cut => self.backspace_selected(),
            EditRequest::Paste(payload) => self.paste(payload),
        }
    }
}

} // verus!
